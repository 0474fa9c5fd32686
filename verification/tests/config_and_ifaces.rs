use ifdyndnsd::addr::{parse_cidr, Addr, Cidr};
use ifdyndnsd::config::{
    decode_secret_material, Config, ConfigError, Interface, SecretSource, TsigKey,
};
use ifdyndnsd::ifaces::{
    handle_event, link_message_name, message_local_addr, AddressAttr, AddressMessage,
    InterfaceTable, LinkAttr, LinkMessage, RouteEvent,
};

fn key_with(
    secret: Option<&str>,
    b64: Option<&str>,
    file: Option<&str>,
    file_b64: Option<&str>,
) -> TsigKey {
    TsigKey {
        server: "198.51.100.1".to_string(),
        name: "key.example.".to_string(),
        alg: "hmac-sha256".to_string(),
        secret: secret.map(|s| s.to_string()),
        secret_base64: b64.map(|s| s.to_string()),
        secret_file: file.map(|s| s.to_string()),
        secret_file_base64: file_b64.map(|s| s.to_string()),
    }
}

#[test]
fn exactly_one_secret_source_is_required() {
    assert_eq!(key_with(None, None, None, None).secret_source().err(), Some(ConfigError::NoSecret));
    assert_eq!(
        key_with(Some("a"), Some("b"), None, None).secret_source().err(),
        Some(ConfigError::MultipleSecrets)
    );
    assert!(matches!(
        key_with(Some("a"), None, None, None).secret_source(),
        Ok(SecretSource::Inline(s)) if s == "a"
    ));
    assert!(matches!(
        key_with(None, Some("b"), None, None).secret_source(),
        Ok(SecretSource::InlineBase64(s)) if s == "b"
    ));
    assert!(matches!(
        key_with(None, None, Some("p"), None).secret_source(),
        Ok(SecretSource::File(s)) if s == "p"
    ));
    assert!(matches!(
        key_with(None, None, None, Some("q")).secret_source(),
        Ok(SecretSource::FileBase64(s)) if s == "q"
    ));
}

#[test]
fn secret_material_decodes() {
    assert_eq!(decode_secret_material(b"raw".to_vec(), false), Ok(b"raw".to_vec()));
    assert_eq!(decode_secret_material(b"aGk=".to_vec(), true), Ok(b"hi".to_vec()));
    assert_eq!(
        decode_secret_material(b"!!not base64!!".to_vec(), true),
        Err(ConfigError::BadBase64)
    );
}

fn task(key: &str) -> Interface {
    Interface {
        key: key.to_string(),
        name: Some("host.example.".to_string()),
        interface: "eth0".to_string(),
        scope: None,
        zone: None,
        ttl: None,
        neighbors: None,
    }
}

#[test]
fn unreferenced_key_id_is_rejected() {
    let config = Config {
        keys: vec![("k1".to_string(), key_with(Some("s"), None, None, None))],
        a: Some(vec![task("k1"), task("k2")]),
        aaaa: None,
    };
    assert_eq!(config.validate_keys(), Err(ConfigError::UnknownKey));
    assert!(config.find_key(&"k1".to_string()).is_some());
    assert!(config.find_key(&"k2".to_string()).is_none());

    let good = Config {
        keys: config.keys.clone(),
        a: Some(vec![task("k1")]),
        aaaa: Some(vec![task("k1")]),
    };
    assert_eq!(good.validate_keys(), Ok(()));
}

#[test]
fn cidr_parsing_and_containment() {
    let c = parse_cidr("10.0.0.0/8").unwrap();
    assert_eq!(c, Cidr { addr: Addr::V4(0x0A000000), prefix: 8 });
    assert!(c.contains(&Addr::V4(0x0A01_0203)));
    assert!(!c.contains(&Addr::V4(0x0B01_0203)));
    assert!(!c.contains(&Addr::V6(0x0A000000)));

    let c6 = parse_cidr("2001:db8::/32").unwrap();
    assert_eq!(c6.prefix, 32);
    assert!(c6.contains(&Addr::V6(0x2001_0db8_0000_0000_0000_0000_0000_0001)));
    assert!(!c6.contains(&Addr::V6(0x2001_0db9_0000_0000_0000_0000_0000_0001)));

    assert!(parse_cidr("not-a-cidr").is_none());
    assert!(parse_cidr("10.0.0.1/8").is_none()); // host bits set
}

#[test]
fn temporary_address_is_filtered() {
    let m = AddressMessage {
        index: 2,
        temporary: true,
        attributes: vec![AddressAttr::Address(Addr::V6(0x2001_0db8_0000_0000_0000_0000_0000_0001))],
    };
    assert_eq!(message_local_addr(&m), None);
}

#[test]
fn local_endpoint_wins_over_interface_address() {
    let m = AddressMessage {
        index: 2,
        temporary: false,
        attributes: vec![
            AddressAttr::Other,
            AddressAttr::Address(Addr::V4(1)),
            AddressAttr::Local(Addr::V4(2)),
        ],
    };
    assert_eq!(message_local_addr(&m), Some(Addr::V4(2)));

    let m2 = AddressMessage {
        index: 2,
        temporary: false,
        attributes: vec![AddressAttr::Other, AddressAttr::Address(Addr::V4(1))],
    };
    assert_eq!(message_local_addr(&m2), Some(Addr::V4(1)));

    let m3 = AddressMessage { index: 2, temporary: false, attributes: vec![AddressAttr::Other] };
    assert_eq!(message_local_addr(&m3), None);
}

#[test]
fn link_names_come_from_the_first_name_attribute() {
    let m = LinkMessage {
        index: 3,
        attributes: vec![LinkAttr::Other, LinkAttr::IfName("eth0".to_string())],
    };
    assert_eq!(link_message_name(&m), Some(&"eth0".to_string()));
    let m2 = LinkMessage { index: 3, attributes: vec![LinkAttr::Other] };
    assert_eq!(link_message_name(&m2), None);
}

#[test]
fn interface_table_tracks_links() {
    let mut t = InterfaceTable::new();
    t.insert(1, "lo".to_string());
    t.insert(2, "eth0".to_string());
    assert_eq!(t.get(1), Some(&"lo".to_string()));
    assert_eq!(t.get(2), Some(&"eth0".to_string()));
    t.insert(2, "eth1".to_string());
    assert_eq!(t.get(2), Some(&"eth1".to_string()));
    t.remove(1);
    assert_eq!(t.get(1), None);
    assert_eq!(t.get(2), Some(&"eth1".to_string()));
}

#[test]
fn events_emit_only_for_known_links() {
    let mut t = InterfaceTable::new();
    let link = LinkMessage {
        index: 7,
        attributes: vec![LinkAttr::IfName("wlan0".to_string())],
    };
    assert_eq!(handle_event(&mut t, &RouteEvent::NewLink(link)), None);

    let addr = AddressMessage {
        index: 7,
        temporary: false,
        attributes: vec![AddressAttr::Address(Addr::V4(0xCB007105))],
    };
    assert_eq!(
        handle_event(&mut t, &RouteEvent::NewAddress(addr.clone())),
        Some(("wlan0".to_string(), Addr::V4(0xCB007105)))
    );

    // A temporary address on the same link emits nothing.
    let temp = AddressMessage { temporary: true, ..addr.clone() };
    assert_eq!(handle_event(&mut t, &RouteEvent::NewAddress(temp)), None);

    // After the link goes away, its addresses are ignored.
    assert_eq!(handle_event(&mut t, &RouteEvent::DelLink(7)), None);
    assert_eq!(handle_event(&mut t, &RouteEvent::NewAddress(addr)), None);
}
