//! The kernel-event side, modeled on plain values: address and link
//! messages as the listener reports them, the filter that picks the
//! address a message publishes, and the index-to-name table the listener
//! keeps while it runs.
//!
//! A temporary (privacy) address never passes the filter; a point-to-point
//! message's local endpoint is preferred over the plain interface address.

use vstd::prelude::*;
use crate::addr::Addr;

verus! {

/// One attribute of a kernel address message, as far as the filter reads
/// it.
#[derive(Debug, Clone, Copy, PartialEq, Eq, Structural)]
pub enum AddressAttr {
    /// The local endpoint of a point-to-point link.
    Local(Addr),
    /// The interface's own address.
    Address(Addr),
    /// Anything else the kernel sends along.
    Other,
}

/// A kernel address message: the link it belongs to, whether the address
/// is a temporary one, and its attributes in order.
#[derive(Debug, Clone)]
pub struct AddressMessage {
    pub index: u32,
    pub temporary: bool,
    pub attributes: Vec<AddressAttr>,
}

/// One attribute of a kernel link message.
#[derive(Debug, Clone)]
pub enum LinkAttr {
    IfName(String),
    Other,
}

/// A kernel link message: the link's index and its attributes in order.
#[derive(Debug, Clone)]
pub struct LinkMessage {
    pub index: u32,
    pub attributes: Vec<LinkAttr>,
}

/// The first local-endpoint address among the attributes.
pub open spec fn first_local(attrs: Seq<AddressAttr>) -> Option<Addr>
    decreases attrs.len(),
{
    if attrs.len() == 0 {
        None
    } else {
        match attrs[0] {
            AddressAttr::Local(a) => Some(a),
            _ => first_local(attrs.drop_first()),
        }
    }
}

/// The first interface address among the attributes.
pub open spec fn first_address(attrs: Seq<AddressAttr>) -> Option<Addr>
    decreases attrs.len(),
{
    if attrs.len() == 0 {
        None
    } else {
        match attrs[0] {
            AddressAttr::Address(a) => Some(a),
            _ => first_address(attrs.drop_first()),
        }
    }
}

/// The address a message publishes: none for a temporary address, else the
/// local endpoint if one is present, else the interface address.
pub open spec fn local_addr_of(m: AddressMessage) -> Option<Addr> {
    if m.temporary {
        None
    } else {
        match first_local(m.attributes@) {
            Some(a) => Some(a),
            None => first_address(m.attributes@),
        }
    }
}

/// Pick the address a message publishes. A temporary (privacy) address is
/// never taken.
pub fn message_local_addr(m: &AddressMessage) -> (r: Option<Addr>)
    ensures
        r == local_addr_of(*m),
        m.temporary ==> r is None,
{
    if m.temporary {
        return None;
    }
    proof {
        assert(m.attributes@.skip(0) =~= m.attributes@);
    }
    let mut i: usize = 0;
    while i < m.attributes.len()
        invariant
            i <= m.attributes@.len(),
            !m.temporary,
            first_local(m.attributes@) == first_local(m.attributes@.skip(i as int)),
        decreases m.attributes@.len() - i,
    {
        let ghost rest = m.attributes@.skip(i as int);
        proof {
            assert(rest[0] == m.attributes@[i as int]);
            assert(rest.drop_first() =~= m.attributes@.skip(i + 1));
        }
        match &m.attributes[i] {
            AddressAttr::Local(a) => {
                proof {
                    assert(rest[0] == AddressAttr::Local(*a));
                    assert(first_local(rest) == Some(*a));
                }
                return Some(*a);
            }
            _ => {}
        }
        proof {
            assert(!(rest[0] is Local));
            assert(first_local(rest) == first_local(rest.drop_first()));
        }
        i += 1;
    }
    proof {
        assert(m.attributes@.skip(m.attributes@.len() as int) =~= Seq::<AddressAttr>::empty());
        assert(first_local(m.attributes@) is None);
        assert(m.attributes@.skip(0) =~= m.attributes@);
    }
    let mut j: usize = 0;
    while j < m.attributes.len()
        invariant
            j <= m.attributes@.len(),
            !m.temporary,
            first_local(m.attributes@) is None,
            first_address(m.attributes@) == first_address(m.attributes@.skip(j as int)),
        decreases m.attributes@.len() - j,
    {
        let ghost rest = m.attributes@.skip(j as int);
        proof {
            assert(rest[0] == m.attributes@[j as int]);
            assert(rest.drop_first() =~= m.attributes@.skip(j + 1));
        }
        match &m.attributes[j] {
            AddressAttr::Address(a) => {
                proof {
                    assert(rest[0] == AddressAttr::Address(*a));
                    assert(first_address(rest) == Some(*a));
                }
                return Some(*a);
            }
            _ => {}
        }
        proof {
            assert(!(rest[0] is Address));
            assert(first_address(rest) == first_address(rest.drop_first()));
        }
        j += 1;
    }
    proof {
        assert(m.attributes@.skip(m.attributes@.len() as int) =~= Seq::<AddressAttr>::empty());
        assert(first_address(m.attributes@) is None);
    }
    None
}

/// The first interface name among a link message's attributes.
pub open spec fn first_ifname(attrs: Seq<LinkAttr>) -> Option<String>
    decreases attrs.len(),
{
    if attrs.len() == 0 {
        None
    } else {
        match attrs[0] {
            LinkAttr::IfName(n) => Some(n),
            _ => first_ifname(attrs.drop_first()),
        }
    }
}

/// The name a link message carries, if any.
pub fn link_message_name(m: &LinkMessage) -> (r: Option<&String>)
    ensures
        match r {
            Some(n) => first_ifname(m.attributes@) == Some(*n),
            None => first_ifname(m.attributes@) is None,
        },
{
    proof {
        assert(m.attributes@.skip(0) =~= m.attributes@);
    }
    let mut i: usize = 0;
    while i < m.attributes.len()
        invariant
            i <= m.attributes@.len(),
            first_ifname(m.attributes@) == first_ifname(m.attributes@.skip(i as int)),
        decreases m.attributes@.len() - i,
    {
        let ghost rest = m.attributes@.skip(i as int);
        proof {
            assert(rest[0] == m.attributes@[i as int]);
            assert(rest.drop_first() =~= m.attributes@.skip(i + 1));
        }
        match &m.attributes[i] {
            LinkAttr::IfName(n) => {
                proof {
                    assert(rest[0] == LinkAttr::IfName(*n));
                    assert(first_ifname(rest) == Some(*n));
                }
                return Some(n);
            }
            _ => {}
        }
        proof {
            assert(!(rest[0] is IfName));
            assert(first_ifname(rest) == first_ifname(rest.drop_first()));
        }
        i += 1;
    }
    proof {
        assert(m.attributes@.skip(m.attributes@.len() as int) =~= Seq::<LinkAttr>::empty());
    }
    None
}

/// Whether the table holds an entry for a link index.
pub open spec fn table_has(s: Seq<(u32, String)>, idx: u32) -> bool {
    exists|i: int| 0 <= i < s.len() && s[i].0 == idx
}

/// The listener's map from link index to interface name.
#[derive(Debug, Clone)]
pub struct InterfaceTable {
    pub entries: Vec<(u32, String)>,
}

impl InterfaceTable {
    /// Each link index appears at most once.
    pub open spec fn wf(&self) -> bool {
        forall|i: int, j: int| 0 <= i < j < self.entries@.len()
            ==> self.entries@[i].0 != self.entries@[j].0
    }

    pub fn new() -> (r: InterfaceTable)
        ensures
            r.wf(),
            r.entries@.len() == 0,
    {
        InterfaceTable { entries: Vec::new() }
    }

    /// The name recorded for a link index.
    pub fn get(&self, index: u32) -> (r: Option<&String>)
        ensures
            r is Some <==> table_has(self.entries@, index),
            r matches Some(n) ==> exists|i: int| 0 <= i < self.entries@.len()
                && self.entries@[i] == (index, *n),
    {
        let mut i: usize = 0;
        while i < self.entries.len()
            invariant
                i <= self.entries@.len(),
                forall|j: int| 0 <= j < i ==> self.entries@[j].0 != index,
            decreases self.entries@.len() - i,
        {
            if self.entries[i].0 == index {
                return Some(&self.entries[i].1);
            }
            i += 1;
        }
        None
    }

    /// Drop the entry for a link index, if any; every other entry stays.
    #[verifier::rlimit(50)]
    pub fn remove(&mut self, index: u32)
        requires
            old(self).wf(),
        ensures
            final(self).wf(),
            !table_has(final(self).entries@, index),
            !table_has(old(self).entries@, index) ==> final(self).entries@ == old(self).entries@,
            table_has(old(self).entries@, index) ==> (forall|i: int|
                0 <= i < final(self).entries@.len() ==> exists|j: int|
                    0 <= j < old(self).entries@.len()
                        && old(self).entries@[j] == #[trigger] final(self).entries@[i]),
            table_has(old(self).entries@, index) ==> (forall|j: int|
                0 <= j < old(self).entries@.len()
                    && (#[trigger] old(self).entries@[j]).0 != index ==> exists|i: int|
                    0 <= i < final(self).entries@.len()
                        && final(self).entries@[i] == old(self).entries@[j]),
    {
        let mut i: usize = 0;
        while i < self.entries.len()
            invariant
                i <= self.entries@.len(),
                self.entries@ == old(self).entries@,
                old(self).wf(),
                forall|j: int| 0 <= j < i ==> (#[trigger] old(self).entries@[j]).0 != index,
            decreases self.entries@.len() - i,
        {
            if self.entries[i].0 == index {
                self.entries.remove(i);
                proof {
                    let ii = i as int;
                    assert(self.entries@ == old(self).entries@.remove(ii));
                    assert(forall|k: int| 0 <= k < self.entries@.len()
                        ==> #[trigger] self.entries@[k] == (if k < ii {
                            old(self).entries@[k]
                        } else {
                            old(self).entries@[k + 1]
                        }));
                    assert forall|k: int| 0 <= k < self.entries@.len() implies
                        (#[trigger] self.entries@[k]).0 != index by {
                        if k >= ii {
                            assert(old(self).entries@[ii].0 != old(self).entries@[k + 1].0);
                        }
                    }
                    assert forall|k1: int, k2: int| 0 <= k1 < k2 < self.entries@.len() implies
                        (#[trigger] self.entries@[k1]).0 != (#[trigger] self.entries@[k2]).0 by {
                        let j1: int = if k1 < ii { k1 } else { k1 + 1 };
                        let j2: int = if k2 < ii { k2 } else { k2 + 1 };
                        assert(old(self).entries@[j1].0 != old(self).entries@[j2].0);
                    }
                    assert forall|k: int| 0 <= k < self.entries@.len() implies exists|j: int|
                        0 <= j < old(self).entries@.len()
                            && old(self).entries@[j] == #[trigger] self.entries@[k] by {
                        let j: int = if k < ii { k } else { k + 1 };
                        assert(old(self).entries@[j] == self.entries@[k]);
                    }
                    assert forall|j: int| 0 <= j < old(self).entries@.len()
                        && (#[trigger] old(self).entries@[j]).0 != index implies exists|k: int|
                        0 <= k < self.entries@.len()
                            && self.entries@[k] == old(self).entries@[j] by {
                        if j < ii {
                            assert(self.entries@[j] == old(self).entries@[j]);
                        } else {
                            assert(j > ii);
                            assert(self.entries@[j - 1] == old(self).entries@[j]);
                        }
                    }
                }
                return;
            }
            i += 1;
        }
    }

    /// Record the name of a link index, replacing any earlier entry.
    #[verifier::rlimit(50)]
    pub fn insert(&mut self, index: u32, name: String)
        requires
            old(self).wf(),
        ensures
            final(self).wf(),
            table_has(final(self).entries@, index),
            exists|i: int| 0 <= i < final(self).entries@.len()
                && #[trigger] final(self).entries@[i] == (index, name),
            forall|j: int| 0 <= j < old(self).entries@.len()
                && (#[trigger] old(self).entries@[j]).0 != index ==> exists|i: int|
                0 <= i < final(self).entries@.len()
                    && final(self).entries@[i] == old(self).entries@[j],
    {
        self.remove(index);
        let ghost mid = self.entries@;
        self.entries.push((index, name));
        proof {
            let now = self.entries@;
            assert(now == mid.push((index, name)));
            assert(now[now.len() - 1] == (index, name));
            assert forall|k1: int, k2: int| 0 <= k1 < k2 < now.len() implies
                (#[trigger] now[k1]).0 != (#[trigger] now[k2]).0 by {
                if k2 < now.len() - 1 {
                    assert(now[k1] == mid[k1] && now[k2] == mid[k2]);
                } else {
                    assert(now[k1] == mid[k1]);
                    assert(mid[k1].0 != index);
                }
            }
            assert forall|j: int| 0 <= j < old(self).entries@.len()
                && (#[trigger] old(self).entries@[j]).0 != index implies exists|i: int|
                0 <= i < now.len() && now[i] == old(self).entries@[j] by {
                if table_has(old(self).entries@, index) {
                    let k = choose|k: int|
                        0 <= k < mid.len() && mid[k] == old(self).entries@[j];
                    assert(now[k] == mid[k]);
                } else {
                    assert(mid == old(self).entries@);
                    assert(now[j] == mid[j]);
                }
            }
        }
    }
}

/// One event from the kernel listener, after decoding.
#[derive(Debug, Clone)]
pub enum RouteEvent {
    NewLink(LinkMessage),
    DelLink(u32),
    NewAddress(AddressMessage),
    Other,
}

/// Drive the listener's state by one event: a new link records its name, a
/// deleted link forgets it, and an address message on a known link emits
/// the filtered `(interface, address)` pair.
pub fn handle_event(table: &mut InterfaceTable, ev: &RouteEvent) -> (r: Option<(String, Addr)>)
    requires
        old(table).wf(),
    ensures
        final(table).wf(),
        r matches Some(p) ==> ev matches RouteEvent::NewAddress(m)
            && local_addr_of(*m) == Some(p.1)
            && exists|i: int| 0 <= i < old(table).entries@.len()
                && old(table).entries@[i] == (m.index, p.0),
        ev matches RouteEvent::NewAddress(m) ==> *final(table) == *old(table)
            && (r is Some <==> local_addr_of(*m) is Some
                && table_has(old(table).entries@, m.index)),
        ev matches RouteEvent::NewLink(lm) ==> r is None && match first_ifname(
            lm.attributes@,
        ) {
            Some(n) => table_has(final(table).entries@, lm.index)
                && exists|i: int| 0 <= i < final(table).entries@.len()
                    && #[trigger] final(table).entries@[i] == (lm.index, n),
            None => *final(table) == *old(table),
        },
        ev matches RouteEvent::DelLink(idx) ==> r is None
            && !table_has(final(table).entries@, *idx),
        (ev is Other ==> *final(table) == *old(table) && r is None),
{
    match ev {
        RouteEvent::NewLink(m) => {
            let name = match link_message_name(m) {
                Some(n) => Some(n.clone()),
                None => None,
            };
            if let Some(n) = name {
                table.insert(m.index, n);
            }
            None
        }
        RouteEvent::DelLink(idx) => {
            table.remove(*idx);
            None
        }
        RouteEvent::NewAddress(m) => {
            let name = match table.get(m.index) {
                Some(n) => Some(n.clone()),
                None => None,
            };
            match (name, message_local_addr(m)) {
                (Some(n), Some(a)) => Some((n, a)),
                _ => None,
            }
        }
        RouteEvent::Other => None,
    }
}

} // verus!
