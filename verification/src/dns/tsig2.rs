//! The TSIG signer in its newer shape: the same record and MAC layout as
//! `tsig`, reporting the key error under the name the current MAC
//! primitive interface uses.

use vstd::prelude::*;
use crate::dns::mac::{
    hmac_sha224, hmac_sha224_of, hmac_sha256, hmac_sha256_of, hmac_sha384, hmac_sha384_of,
    hmac_sha512, hmac_sha512_of,
};
use crate::dns::wire::{
    DnsName, Record, DNS_CLASS_ANY, RR_TYPE_TSIG, emit_bytes, emit_u16, emit_u32, emit_u48,
    name_wire, u16_be, u32_be, u48_be,
};

verus! {

/// The fixed clock-skew allowance carried in every signature, in seconds.
pub const TSIG_FUDGE: u16 = 300;

/// The DNS no-error response code, carried in a fresh signature.
pub const RCODE_NOERROR: u16 = 0;

#[derive(Debug, Clone, Copy, PartialEq, Eq, Structural)]
pub enum Error {
    /// Encoding the record failed.
    Proto,
    /// The key's secret was rejected by the MAC primitive.
    InvalidLength,
}

#[derive(Debug, Copy, Clone, PartialEq, Eq, Structural)]
pub enum Algorithm {
    HmacSha224,
    HmacSha256,
    HmacSha384,
    HmacSha512,
}

/// The single label of an algorithm's DNS name.
pub open spec fn alg_label(alg: Algorithm) -> Seq<u8> {
    match alg {
        Algorithm::HmacSha224 => seq![
            ('h' as u8), ('m' as u8), ('a' as u8), ('c' as u8), ('-' as u8),
            ('s' as u8), ('h' as u8), ('a' as u8), ('2' as u8), ('2' as u8), ('4' as u8),
        ],
        Algorithm::HmacSha256 => seq![
            ('h' as u8), ('m' as u8), ('a' as u8), ('c' as u8), ('-' as u8),
            ('s' as u8), ('h' as u8), ('a' as u8), ('2' as u8), ('5' as u8), ('6' as u8),
        ],
        Algorithm::HmacSha384 => seq![
            ('h' as u8), ('m' as u8), ('a' as u8), ('c' as u8), ('-' as u8),
            ('s' as u8), ('h' as u8), ('a' as u8), ('3' as u8), ('8' as u8), ('4' as u8),
        ],
        Algorithm::HmacSha512 => seq![
            ('h' as u8), ('m' as u8), ('a' as u8), ('c' as u8), ('-' as u8),
            ('s' as u8), ('h' as u8), ('a' as u8), ('5' as u8), ('1' as u8), ('2' as u8),
        ],
    }
}

/// An algorithm's name in canonical wire form.
pub open spec fn alg_wire(alg: Algorithm) -> Seq<u8> {
    name_wire(seq![alg_label(alg)])
}

/// The MAC an algorithm computes.
pub open spec fn mac_of(alg: Algorithm, key: Seq<u8>, data: Seq<u8>) -> Seq<u8> {
    match alg {
        Algorithm::HmacSha224 => hmac_sha224_of(key, data),
        Algorithm::HmacSha256 => hmac_sha256_of(key, data),
        Algorithm::HmacSha384 => hmac_sha384_of(key, data),
        Algorithm::HmacSha512 => hmac_sha512_of(key, data),
    }
}

/// An algorithm's MAC output length in bytes.
pub open spec fn mac_output_len(alg: Algorithm) -> int {
    match alg {
        Algorithm::HmacSha224 => 28,
        Algorithm::HmacSha256 => 32,
        Algorithm::HmacSha384 => 48,
        Algorithm::HmacSha512 => 64,
    }
}

/// The bytes of an algorithm's single name label.
fn alg_label_bytes(alg: &Algorithm) -> (r: Vec<u8>)
    ensures
        r@ == alg_label(*alg),
{
    let label: Vec<u8> = match alg {
        Algorithm::HmacSha224 => vec![104, 109, 97, 99, 45, 115, 104, 97, 50, 50, 52],
        Algorithm::HmacSha256 => vec![104, 109, 97, 99, 45, 115, 104, 97, 50, 53, 54],
        Algorithm::HmacSha384 => vec![104, 109, 97, 99, 45, 115, 104, 97, 51, 56, 52],
        Algorithm::HmacSha512 => vec![104, 109, 97, 99, 45, 115, 104, 97, 53, 49, 50],
    };
    proof {
        assert(label@ =~= alg_label(*alg));
    }
    label
}

impl Algorithm {
    /// The algorithm's DNS name, a single lowercase label.
    pub fn as_name(&self) -> (r: DnsName)
        ensures
            r@ == seq![alg_label(*self)],
            r.wf(),
    {
        let n = DnsName { labels: vec![alg_label_bytes(self)] };
        proof {
            assert(n@ =~= seq![alg_label(*self)]);
        }
        n
    }

    /// The algorithm a DNS name denotes, if any.
    pub fn from_name(name: &DnsName) -> (r: Result<Algorithm, UnknownAlgorithm>)
        ensures
            r matches Ok(a) ==> name@ == seq![alg_label(a)],
            r is Err ==> forall|a: Algorithm| name@ != seq![alg_label(a)],
    {
        if name.labels.len() != 1 {
            proof {
                assert forall|a: Algorithm| name@ != seq![alg_label(a)] by {
                    assert(name@.len() == name.labels@.len());
                }
            }
            return Err(UnknownAlgorithm);
        }
        let l = &name.labels[0];
        proof {
            assert(name@ =~= seq![name.labels@[0]@]);
        }
        let c224 = alg_label_bytes(&Algorithm::HmacSha224);
        let c256 = alg_label_bytes(&Algorithm::HmacSha256);
        let c384 = alg_label_bytes(&Algorithm::HmacSha384);
        let c512 = alg_label_bytes(&Algorithm::HmacSha512);
        if bytes_eq(l, &c224) {
            proof {
                assert(name@ =~= seq![alg_label(Algorithm::HmacSha224)]);
            }
            Ok(Algorithm::HmacSha224)
        } else if bytes_eq(l, &c256) {
            proof {
                assert(name@ =~= seq![alg_label(Algorithm::HmacSha256)]);
            }
            Ok(Algorithm::HmacSha256)
        } else if bytes_eq(l, &c384) {
            proof {
                assert(name@ =~= seq![alg_label(Algorithm::HmacSha384)]);
            }
            Ok(Algorithm::HmacSha384)
        } else if bytes_eq(l, &c512) {
            proof {
                assert(name@ =~= seq![alg_label(Algorithm::HmacSha512)]);
            }
            Ok(Algorithm::HmacSha512)
        } else {
            proof {
                assert forall|a: Algorithm| name@ != seq![alg_label(a)] by {
                    assert(name@[0] == l@);
                    if name@ == seq![alg_label(a)] {
                        assert(l@ == alg_label(a));
                    }
                }
            }
            Err(UnknownAlgorithm)
        }
    }
}

#[derive(Debug, PartialEq, Eq, Structural)]
pub struct UnknownAlgorithm;

/// Whether two byte strings hold the same bytes.
fn bytes_eq(a: &Vec<u8>, b: &Vec<u8>) -> (r: bool)
    ensures
        r == (a@ == b@),
{
    if a.len() != b.len() {
        return false;
    }
    let mut i: usize = 0;
    while i < a.len()
        invariant
            i <= a@.len(),
            a@.len() == b@.len(),
            forall|j: int| 0 <= j < i ==> a@[j] == b@[j],
        decreases a@.len() - i,
    {
        if a[i] != b[i] {
            return false;
        }
        i += 1;
    }
    proof {
        assert(a@ =~= b@);
    }
    true
}

/// A TSIG signing key: its DNS name, the algorithm, and the shared secret.
#[derive(Debug, Clone)]
pub struct Key {
    pub name: DnsName,
    pub algorithm: Algorithm,
    pub secret: Vec<u8>,
}

impl Key {
    pub fn new(name: DnsName, algorithm: Algorithm, secret: Vec<u8>) -> (r: Key)
        ensures
            r.name == name,
            r.algorithm == algorithm,
            r.secret == secret,
    {
        Key { name, algorithm, secret }
    }
}

/// The byte string the MAC covers, per RFC 2845 §3.4: the whole message,
/// then the key name (canonical), class ANY, TTL zero, the algorithm name
/// (canonical), the signing time, the fudge, the error and the empty
/// other-data length.
pub open spec fn tsig_variables(
    msg_wire: Seq<u8>,
    key_name: Seq<Seq<u8>>,
    alg: Algorithm,
    time_signed: u64,
) -> Seq<u8> {
    msg_wire + name_wire(key_name) + u16_be(DNS_CLASS_ANY) + u32_be(0) + alg_wire(alg)
        + u48_be(time_signed) + u16_be(TSIG_FUDGE) + u16_be(RCODE_NOERROR) + u16_be(0)
}

/// The MAC of a message signed at `time_signed` under `key`.
pub open spec fn signature_mac(key: Key, msg_wire: Seq<u8>, time_signed: u64) -> Seq<u8> {
    mac_of(key.algorithm, key.secret@, tsig_variables(msg_wire, key.name@, key.algorithm, time_signed))
}

/// The record data of a TSIG record: algorithm name, 48-bit time, fudge,
/// MAC length and MAC, the original message id, the error, and the empty
/// other-data length.
pub open spec fn tsig_rdata(alg: Algorithm, time_signed: u64, mac: Seq<u8>, original_id: u16) -> Seq<u8>
    recommends
        mac.len() <= 0xffff,
{
    alg_wire(alg) + u48_be(time_signed) + u16_be(TSIG_FUDGE) + u16_be(mac.len() as u16) + mac
        + u16_be(original_id) + u16_be(RCODE_NOERROR) + u16_be(0)
}

/// Compute the MAC of `data` under `key` with `alg`.
pub(crate) fn compute_mac(alg: Algorithm, key: &Vec<u8>, data: &Vec<u8>) -> (r: Vec<u8>)
    ensures
        r@ == mac_of(alg, key@, data@),
        r@.len() == mac_output_len(alg),
{
    match alg {
        Algorithm::HmacSha224 => hmac_sha224(key, data),
        Algorithm::HmacSha256 => hmac_sha256(key, data),
        Algorithm::HmacSha384 => hmac_sha384(key, data),
        Algorithm::HmacSha512 => hmac_sha512(key, data),
    }
}

/// Duplicate a name, label by label.
fn clone_name(name: &DnsName) -> (r: DnsName)
    ensures
        r@ == name@,
{
    let mut labels: Vec<Vec<u8>> = Vec::new();
    let mut i: usize = 0;
    while i < name.labels.len()
        invariant
            i <= name.labels@.len(),
            labels@.len() == i,
            forall|j: int| 0 <= j < i ==> labels@[j]@ == name.labels@[j]@,
        decreases name.labels@.len() - i,
    {
        let l = name.labels[i].clone();
        proof {
            assert(l@ =~= name.labels@[i as int]@);
        }
        labels.push(l);
        i += 1;
    }
    let r = DnsName { labels };
    proof {
        assert(r@ =~= name@);
    }
    r
}

/// Produce the signed trailing record for `msg_wire` (whose header id is
/// `msg_id`) at `time_signed` under `key`: owner is the key name, class
/// ANY, TTL zero, and the TSIG record data over the MAC that covers the
/// message and the signing variables.
pub fn create_signature(msg_wire: &Vec<u8>, msg_id: u16, time_signed: u64, key: &Key) -> (r:
    Result<Record, Error>)
    requires
        key.name.wf(),
    ensures
        r is Ok,
        r matches Ok(rec) ==> {
            &&& rec.name@ == key.name@
            &&& rec.dns_class == DNS_CLASS_ANY
            &&& rec.ttl == 0
            &&& rec.rdata_code == RR_TYPE_TSIG
            &&& rec.rdata@ == tsig_rdata(
                key.algorithm,
                time_signed,
                signature_mac(*key, msg_wire@, time_signed),
                msg_id,
            )
        },
{
    let mut data: Vec<u8> = Vec::new();
    emit_bytes(&mut data, msg_wire);
    let name_w = key.name.canonical_wire();
    emit_bytes(&mut data, &name_w);
    emit_u16(&mut data, DNS_CLASS_ANY);
    emit_u32(&mut data, 0);
    let alg_name = key.algorithm.as_name();
    let alg_w = alg_name.canonical_wire();
    proof {
        assert(alg_w@ == alg_wire(key.algorithm));
    }
    emit_bytes(&mut data, &alg_w);
    emit_u48(&mut data, time_signed);
    emit_u16(&mut data, TSIG_FUDGE);
    emit_u16(&mut data, RCODE_NOERROR);
    emit_u16(&mut data, 0);
    proof {
        assert(data@ =~= tsig_variables(msg_wire@, key.name@, key.algorithm, time_signed));
    }
    let mac = compute_mac(key.algorithm, &key.secret, &data);

    let mut rdata: Vec<u8> = Vec::new();
    emit_bytes(&mut rdata, &alg_w);
    emit_u48(&mut rdata, time_signed);
    emit_u16(&mut rdata, TSIG_FUDGE);
    emit_u16(&mut rdata, mac.len() as u16);
    emit_bytes(&mut rdata, &mac);
    emit_u16(&mut rdata, msg_id);
    emit_u16(&mut rdata, RCODE_NOERROR);
    emit_u16(&mut rdata, 0);
    proof {
        assert(rdata@ =~= tsig_rdata(
            key.algorithm,
            time_signed,
            signature_mac(*key, msg_wire@, time_signed),
            msg_id,
        ));
    }
    Ok(Record {
        name: clone_name(&key.name),
        dns_class: DNS_CLASS_ANY,
        ttl: 0,
        rdata_code: RR_TYPE_TSIG,
        rdata,
    })
}

} // verus!
