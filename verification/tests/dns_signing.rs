use hmac::Mac;
use ifdyndnsd::addr::Addr;
use ifdyndnsd::dns::tsig::{create_signature, Algorithm, Key};
use ifdyndnsd::dns::wire::{DnsName, DNS_CLASS_ANY, RR_TYPE_TSIG};
use ifdyndnsd::dns::{parent_name, record_type_of, should_send_update, update_zone, RecordType};

fn name(labels: &[&str]) -> DnsName {
    DnsName::from_labels(labels.iter().map(|l| l.as_bytes().to_vec()).collect()).unwrap()
}

#[test]
fn record_type_follows_the_family() {
    assert_eq!(record_type_of(&Addr::V4(1)), RecordType::A);
    assert_eq!(record_type_of(&Addr::V6(1)), RecordType::AAAA);
}

#[test]
fn query_answering_current_address_skips_the_update() {
    let current = Addr::V4(0xCB007105);
    assert!(!should_send_update(&Ok(vec![current]), &current));
}

#[test]
fn other_query_outcomes_send_the_update() {
    let current = Addr::V4(0xCB007105);
    let stale = Addr::V4(0xCB007106);
    assert!(should_send_update(&Ok(vec![]), &current));
    assert!(should_send_update(&Ok(vec![stale]), &current));
    assert!(should_send_update(&Ok(vec![current, current]), &current));
    assert!(should_send_update(&Err("timeout".to_string()), &current));
}

#[test]
fn parent_name_drops_the_first_label() {
    assert_eq!(parent_name("host.example."), "example.");
    assert_eq!(parent_name("a.b.c"), "b.c");
    assert_eq!(parent_name("local"), "");
}

#[test]
fn update_zone_prefers_the_configured_zone() {
    assert_eq!(update_zone("host.example.", &Some("example.org.".to_string())), "example.org.");
    assert_eq!(update_zone("host.example.", &None), "example.");
}

#[test]
fn algorithm_names_round_trip() {
    for alg in [
        Algorithm::HmacSha224,
        Algorithm::HmacSha256,
        Algorithm::HmacSha384,
        Algorithm::HmacSha512,
    ] {
        let n = alg.as_name();
        assert_eq!(Algorithm::from_name(&n), Ok(alg));
    }
    assert_eq!(name(&["hmac-sha256"]).labels, Algorithm::HmacSha256.as_name().labels);
    assert!(Algorithm::from_name(&name(&["hmac-md5"])).is_err());
    assert!(Algorithm::from_name(&name(&["hmac", "sha256"])).is_err());
}

#[test]
fn canonical_wire_lowercases_labels() {
    let n = name(&["HOST", "Example"]);
    assert_eq!(
        n.canonical_wire(),
        [&[4u8][..], b"host", &[7], b"example", &[0]].concat()
    );
}

#[test]
fn from_labels_rejects_bad_labels() {
    assert!(DnsName::from_labels(vec![vec![]]).is_err());
    assert!(DnsName::from_labels(vec![vec![b'a'; 64]]).is_err());
    assert!(DnsName::from_labels(vec![vec![b'a'; 63]]).is_ok());
}

#[test]
fn signature_record_has_the_documented_layout() {
    let key = Key::new(name(&["key", "example."]), Algorithm::HmacSha256, b"secret".to_vec());
    let msg: Vec<u8> = vec![0xAB, 0xCD, 1, 2, 3, 4];
    let msg_id: u16 = 0xABCD;
    let time: u64 = 1_700_000_000;
    let rec = create_signature(&msg, msg_id, time, &key).unwrap();

    assert_eq!(rec.name.labels, key.name.labels);
    assert_eq!(rec.dns_class, DNS_CLASS_ANY);
    assert_eq!(rec.ttl, 0);
    assert_eq!(rec.rdata_code, RR_TYPE_TSIG);

    // algorithm-name | time (u48) | fudge | mac-len | mac | id | error | other-len
    let alg_wire = [&[11u8][..], b"hmac-sha256", &[0]].concat();
    assert_eq!(&rec.rdata[..13], &alg_wire[..]);
    let t48: Vec<u8> = (time << 16).to_be_bytes()[..6].to_vec();
    assert_eq!(&rec.rdata[13..19], &t48[..]);
    assert_eq!(&rec.rdata[19..21], &300u16.to_be_bytes());
    assert_eq!(&rec.rdata[21..23], &32u16.to_be_bytes());
    let mac = &rec.rdata[23..55];
    assert_eq!(&rec.rdata[55..57], &msg_id.to_be_bytes());
    assert_eq!(&rec.rdata[57..59], &0u16.to_be_bytes());
    assert_eq!(&rec.rdata[59..61], &0u16.to_be_bytes());
    assert_eq!(rec.rdata.len(), 61);

    // The MAC covers message ++ key name (canonical) ++ ANY ++ TTL 0 ++
    // algorithm name ++ time ++ fudge ++ error ++ other-len; recompute it
    // independently.
    let mut covered = msg.clone();
    covered.extend_from_slice(&[3, b'k', b'e', b'y', 8]);
    covered.extend_from_slice(b"example.");
    covered.push(0);
    covered.extend_from_slice(&255u16.to_be_bytes());
    covered.extend_from_slice(&0u32.to_be_bytes());
    covered.extend_from_slice(&alg_wire);
    covered.extend_from_slice(&t48);
    covered.extend_from_slice(&300u16.to_be_bytes());
    covered.extend_from_slice(&0u16.to_be_bytes());
    covered.extend_from_slice(&0u16.to_be_bytes());
    let mut m = <hmac::Hmac<sha2::Sha256> as hmac::digest::KeyInit>::new_from_slice(b"secret")
        .unwrap();
    m.update(&covered);
    let expected = m.finalize().into_bytes().to_vec();
    assert_eq!(mac, &expected[..]);
}

#[test]
fn signature_mac_lengths_follow_the_algorithm() {
    let msg: Vec<u8> = vec![0, 1];
    for (alg, len) in [
        (Algorithm::HmacSha224, 28usize),
        (Algorithm::HmacSha256, 32),
        (Algorithm::HmacSha384, 48),
        (Algorithm::HmacSha512, 64),
    ] {
        let key = Key::new(name(&["k"]), alg, b"s".to_vec());
        let rec = create_signature(&msg, 7, 42, &key).unwrap();
        // algorithm name (13) + time (6) + fudge (2) + mac-len (2) + mac
        // + id/err/other (6)
        assert_eq!(rec.rdata.len(), 13 + 6 + 2 + 2 + len + 6);
        assert_eq!(&rec.rdata[21..23], &(len as u16).to_be_bytes());
    }
}

#[test]
fn tsig2_signs_like_tsig() {
    let k1 = Key::new(name(&["k", "example."]), Algorithm::HmacSha512, b"s3".to_vec());
    let k2 = ifdyndnsd::dns::tsig2::Key::new(
        name(&["k", "example."]),
        ifdyndnsd::dns::tsig2::Algorithm::HmacSha512,
        b"s3".to_vec(),
    );
    let msg: Vec<u8> = vec![9, 9, 9];
    let r1 = create_signature(&msg, 1, 2, &k1).unwrap();
    let r2 = ifdyndnsd::dns::tsig2::create_signature(&msg, 1, 2, &k2).unwrap();
    assert_eq!(r1.rdata, r2.rdata);
}
