//! DNS wire building blocks shared by the signing modules: domain names in
//! canonical (lowercased, uncompressed) wire form, big-endian integer
//! emission, and the resource-record shape a signature is returned in.

use vstd::prelude::*;

verus! {

/// DNS CLASS ANY, the class a TSIG record carries.
pub const DNS_CLASS_ANY: u16 = 255;

/// The resource-record type code of a TSIG record.
pub const RR_TYPE_TSIG: u16 = 250;

/// A domain name as a sequence of labels, without the trailing root label.
#[derive(Debug, Clone)]
pub struct DnsName {
    pub labels: Vec<Vec<u8>>,
}

impl View for DnsName {
    type V = Seq<Seq<u8>>;

    open spec fn view(&self) -> Seq<Seq<u8>> {
        self.labels@.map_values(|l: Vec<u8>| l@)
    }
}

/// ASCII uppercase mapped to lowercase; anything else kept.
pub open spec fn lower_byte(b: u8) -> u8 {
    if 65 <= b <= 90 {
        (b + 32) as u8
    } else {
        b
    }
}

/// One label on the wire in canonical form: its length, then its bytes
/// lowercased.
pub open spec fn label_wire(l: Seq<u8>) -> Seq<u8> {
    seq![(l.len() as u8)] + l.map_values(|b: u8| lower_byte(b))
}

/// A whole name on the wire in canonical form: each label in order, closed
/// by the root label's zero length.
pub open spec fn name_wire(labels: Seq<Seq<u8>>) -> Seq<u8> {
    labels.map_values(|l: Seq<u8>| label_wire(l)).flatten() + seq![0u8]
}

impl DnsName {
    /// Every label fits the wire: one to 63 bytes.
    pub open spec fn wf(&self) -> bool {
        forall|i: int| 0 <= i < self@.len() ==> 1 <= #[trigger] self@[i].len() <= 63
    }

    /// Build a name from its labels, rejecting an empty or over-long label.
    pub fn from_labels(labels: Vec<Vec<u8>>) -> (r: Result<DnsName, ()>)
        ensures
            r matches Ok(n) ==> n.labels@ == labels@ && n.wf(),
            r is Ok <==> forall|i: int| 0 <= i < labels@.len()
                ==> 1 <= #[trigger] labels@[i]@.len() <= 63,
    {
        let mut i: usize = 0;
        while i < labels.len()
            invariant
                i <= labels@.len(),
                forall|j: int| 0 <= j < i ==> 1 <= #[trigger] labels@[j]@.len() <= 63,
            decreases labels@.len() - i,
        {
            if labels[i].len() == 0 || labels[i].len() > 63 {
                return Err(());
            }
            i += 1;
        }
        let n = DnsName { labels };
        assert(forall|i: int| 0 <= i < n@.len() ==> n@[i] == n.labels@[i]@);
        Ok(n)
    }

    /// The name in canonical wire form.
    pub fn canonical_wire(&self) -> (r: Vec<u8>)
        requires
            self.wf(),
        ensures
            r@ == name_wire(self@),
    {
        let mut wire: Vec<u8> = Vec::new();
        let mut i: usize = 0;
        proof {
            assert(self@.take(0).map_values(|l: Seq<u8>| label_wire(l)) =~= Seq::<Seq<u8>>::empty());
            assert(wire@ =~= self@.take(0).map_values(|l: Seq<u8>| label_wire(l)).flatten());
        }
        while i < self.labels.len()
            invariant
                i <= self.labels@.len(),
                self.wf(),
                wire@ == self@.take(i as int).map_values(|l: Seq<u8>| label_wire(l)).flatten(),
            decreases self.labels@.len() - i,
        {
            let ghost prefix = self@.take(i as int).map_values(|l: Seq<u8>| label_wire(l));
            proof {
                assert(self@[i as int] == self.labels@[i as int]@);
                assert(1 <= self@[i as int].len() <= 63);
            }
            push_label(&mut wire, &self.labels[i]);
            proof {
                let f = |l: Seq<u8>| label_wire(l);
                assert(self@[i as int] == self.labels@[i as int]@);
                assert(self@.take(i + 1) =~= self@.take(i as int).push(self@[i as int]));
                assert(self@.take(i as int).push(self@[i as int]).map_values(f)
                    =~= prefix.push(label_wire(self@[i as int])));
                prefix.lemma_flatten_push(label_wire(self@[i as int]));
                assert(wire@ == self@.take(i + 1).map_values(f).flatten());
            }
            i += 1;
        }
        proof {
            assert(self@.take(self.labels@.len() as int) =~= self@);
        }
        wire.push(0);
        wire
    }
}

/// Append one label in canonical wire form.
fn push_label(wire: &mut Vec<u8>, label: &Vec<u8>)
    requires
        1 <= label@.len() <= 63,
    ensures
        final(wire)@ == old(wire)@ + label_wire(label@),
{
    wire.push(label.len() as u8);
    let mut j: usize = 0;
    proof {
        assert(label@.take(0).map_values(|b: u8| lower_byte(b)) =~= Seq::<u8>::empty());
        assert(wire@ =~= old(wire)@ + seq![(label@.len() as u8)]
            + label@.take(0).map_values(|b: u8| lower_byte(b)));
    }
    while j < label.len()
        invariant
            j <= label@.len(),
            1 <= label@.len() <= 63,
            wire@ == old(wire)@ + seq![(label@.len() as u8)]
                + label@.take(j as int).map_values(|b: u8| lower_byte(b)),
        decreases label@.len() - j,
    {
        let b = label[j];
        let lowered: u8 = if b >= 65 && b <= 90 {
            b + 32
        } else {
            b
        };
        assert(lowered == lower_byte(label@[j as int]));
        wire.push(lowered);
        proof {
            let f = |b: u8| lower_byte(b);
            assert(label@.take(j + 1) =~= label@.take(j as int).push(label@[j as int]));
            assert(label@.take(j + 1).map_values(f)
                =~= label@.take(j as int).map_values(f).push(lower_byte(label@[j as int])));
            assert(wire@ =~= old(wire)@ + seq![(label@.len() as u8)]
                + label@.take(j + 1).map_values(f));
        }
        j += 1;
    }
    proof {
        assert(label@.take(label@.len() as int) =~= label@);
        assert(wire@ =~= old(wire)@ + label_wire(label@));
    }
}

/// A 16-bit value in network byte order.
pub open spec fn u16_be(x: u16) -> Seq<u8> {
    seq![(((x >> 8) & 0xff) as u8), ((x & 0xff) as u8)]
}

/// A 32-bit value in network byte order.
pub open spec fn u32_be(x: u32) -> Seq<u8> {
    seq![
        (((x >> 24) & 0xff) as u8),
        (((x >> 16) & 0xff) as u8),
        (((x >> 8) & 0xff) as u8),
        ((x & 0xff) as u8),
    ]
}

/// The low 48 bits of a value in network byte order, as a TSIG timestamp
/// is carried.
pub open spec fn u48_be(x: u64) -> Seq<u8> {
    seq![
        (((x >> 40) & 0xff) as u8),
        (((x >> 32) & 0xff) as u8),
        (((x >> 24) & 0xff) as u8),
        (((x >> 16) & 0xff) as u8),
        (((x >> 8) & 0xff) as u8),
        ((x & 0xff) as u8),
    ]
}

pub fn emit_u16(v: &mut Vec<u8>, x: u16)
    ensures
        final(v)@ == old(v)@ + u16_be(x),
{
    v.push(((x >> 8) & 0xff) as u8);
    v.push((x & 0xff) as u8);
    assert(v@ =~= old(v)@ + u16_be(x));
}

pub fn emit_u32(v: &mut Vec<u8>, x: u32)
    ensures
        final(v)@ == old(v)@ + u32_be(x),
{
    v.push(((x >> 24) & 0xff) as u8);
    v.push(((x >> 16) & 0xff) as u8);
    v.push(((x >> 8) & 0xff) as u8);
    v.push((x & 0xff) as u8);
    assert(v@ =~= old(v)@ + u32_be(x));
}

pub fn emit_u48(v: &mut Vec<u8>, x: u64)
    ensures
        final(v)@ == old(v)@ + u48_be(x),
{
    v.push(((x >> 40) & 0xff) as u8);
    v.push(((x >> 32) & 0xff) as u8);
    v.push(((x >> 24) & 0xff) as u8);
    v.push(((x >> 16) & 0xff) as u8);
    v.push(((x >> 8) & 0xff) as u8);
    v.push((x & 0xff) as u8);
    assert(v@ =~= old(v)@ + u48_be(x));
}

/// Append every byte of `data`.
pub fn emit_bytes(v: &mut Vec<u8>, data: &Vec<u8>)
    ensures
        final(v)@ == old(v)@ + data@,
{
    let mut i: usize = 0;
    proof {
        assert(v@ =~= old(v)@ + data@.take(0));
    }
    while i < data.len()
        invariant
            i <= data@.len(),
            v@ == old(v)@ + data@.take(i as int),
        decreases data@.len() - i,
    {
        v.push(data[i]);
        proof {
            assert(data@.take(i + 1) =~= data@.take(i as int).push(data@[i as int]));
            assert(v@ =~= old(v)@ + data@.take(i + 1));
        }
        i += 1;
    }
    proof {
        assert(data@.take(data@.len() as int) =~= data@);
    }
}

/// A resource record as the signer hands it back: owner name, class,
/// time-to-live, and the type code with its opaque data.
#[derive(Debug, Clone)]
pub struct Record {
    pub name: DnsName,
    pub dns_class: u16,
    pub ttl: u32,
    pub rdata_code: u16,
    pub rdata: Vec<u8>,
}

} // verus!
