pub mod addr;
pub mod config;
pub mod dns;
pub mod ifaces;

use vstd::prelude::*;
use crate::addr::{Addr, Cidr, addr_in_cidr, cidr_of, parse_cidr, spliced_v6, neighbor_address};
use crate::config::{ConfigError, Interface};

verus! {

/// Milliseconds a record waits after an update attempt before it may be
/// tried again.
pub const RETRY_INTERVAL_MS: u64 = 60_000;

/// The debounce window after an observed address change, in milliseconds.
pub const IDLE_TIMEOUT_MS: u64 = 1_000;

/// The wait used when no retry is pending: about a year, in milliseconds.
pub const NEVER_TIMEOUT_MS: u64 = 365 * 86_400 * 1_000;

/// The largest instant the library accepts, leaving room to add the retry
/// interval without overflow.
pub const MAX_INSTANT_MS: u64 = u64::MAX - RETRY_INTERVAL_MS;

#[derive(Clone, Copy, Debug, PartialEq, Eq, Structural)]
pub enum AddressFamily {
    IPv4,
    IPv6,
}

/// Per-task record state: the last learned address, whether it still has to
/// be published, and when it was last tried.
#[derive(Debug, Clone)]
pub struct RecordState {
    pub name: Option<String>,
    pub neighbors: Vec<(String, u128)>,
    pub addr: Option<Addr>,
    pub ttl: u32,
    pub zone: Option<String>,
    pub scope: Cidr,
    pub dirty: bool,
    pub update_tried: Option<u64>,
}

/// The scope a task gets when it names none: everything for v4, global
/// unicast for v6.
pub open spec fn default_scope(af: AddressFamily) -> Cidr {
    match af {
        AddressFamily::IPv4 => Cidr { addr: Addr::V4(0), prefix: 0u8 },
        AddressFamily::IPv6 => Cidr {
            addr: Addr::V6(0x20000000000000000000000000000000),
            prefix: 3u8,
        },
    }
}

/// The scope a task gets: its own scope string parsed, or the family's
/// default.
pub open spec fn scope_for(task_scope: Option<String>, af: AddressFamily) -> Option<Cidr> {
    match task_scope {
        None => Some(default_scope(af)),
        Some(s) => match cidr_of(s@) {
            None => None,
            Some((v4, bits, p)) => Some(
                Cidr {
                    addr: if v4 {
                        Addr::V4(bits as u32)
                    } else {
                        Addr::V6(bits)
                    },
                    prefix: p,
                },
            ),
        },
    }
}

/// The task's scope string does not parse.
pub open spec fn scope_parse_fails(task: Interface) -> bool {
    task.scope matches Some(s) && cidr_of(s@) is None
}

/// The task asks for a v4 record but brings a non-empty neighbor map.
pub open spec fn v4_with_neighbors(task: Interface, af: AddressFamily) -> bool {
    af is IPv4 && (task.neighbors matches Some(n) && n@.len() > 0)
}

/// The task's scope parses into the wrong address family.
pub open spec fn scope_family_mismatch(task: Interface, af: AddressFamily) -> bool {
    scope_for(task.scope, af) matches Some(c) && c.spec_family() != af
}

/// What a record becomes when an in-scope, different address is learned.
pub open spec fn address_learned(s: RecordState, a: Addr) -> RecordState {
    RecordState { addr: Some(a), dirty: true, update_tried: None, ..s }
}

/// What `set_address` does: an address outside the scope, or equal to the
/// one already held, changes nothing and reports `false`; any other
/// address is stored, marks the record dirty and clears the last try.
pub open spec fn set_address_spec(s: RecordState, a: Addr) -> (RecordState, bool) {
    if addr_in_cidr(a, s.scope) && s.addr != Some(a) {
        (address_learned(s, a), true)
    } else {
        (s, false)
    }
}

/// What starting an update attempt at `now` does to the state.
pub open spec fn begin_update_state(s: RecordState, now: u64) -> RecordState {
    RecordState { dirty: false, update_tried: Some(now), ..s }
}

/// What a failed primary update does to the state: the record is dirty
/// again and will be retried.
pub open spec fn primary_failed_state(s: RecordState) -> RecordState {
    RecordState { dirty: true, ..s }
}

/// Whether an update may be attempted at `now`: only a dirty record, and
/// only once the retry interval has passed since the last try.
pub open spec fn can_update_spec(s: RecordState, now: u64) -> bool {
    &&& s.dirty
    &&& match s.update_tried {
        None => true,
        Some(t) => now >= t + RETRY_INTERVAL_MS,
    }
}

/// The deadline of a dirty record: the retry instant after a try, or `now`
/// when it was never tried; a clean record has none.
pub open spec fn next_timeout_spec(s: RecordState, now: u64) -> Option<u64> {
    if !s.dirty {
        None
    } else {
        match s.update_tried {
            Some(t) => Some((t + RETRY_INTERVAL_MS) as u64),
            None => Some(now),
        }
    }
}

impl RecordState {
    /// The record's invariant: the scope is well formed, a v4 record has no
    /// neighbors, a learned address lies in the scope, a dirty record holds
    /// an address, and instants leave room for the retry interval.
    pub open spec fn wf(&self) -> bool {
        &&& self.scope.wf()
        &&& (self.scope.addr is V4 ==> self.neighbors@.len() == 0)
        &&& (self.addr matches Some(a) ==> addr_in_cidr(a, self.scope))
        &&& (self.dirty ==> self.addr is Some)
        &&& (self.update_tried matches Some(t) ==> t <= MAX_INSTANT_MS)
    }

    /// Build the record state for a task, rejecting a bad scope string, a
    /// v4 task with neighbors, and a scope of the wrong family.
    pub fn try_new(task: Interface, af: AddressFamily) -> (r: Result<RecordState, ConfigError>)
        ensures
            r is Ok <==> !scope_parse_fails(task) && !v4_with_neighbors(task, af)
                && !scope_family_mismatch(task, af),
            r matches Err(e) ==> e == (if scope_parse_fails(task) {
                ConfigError::BadScope
            } else if v4_with_neighbors(task, af) {
                ConfigError::NeighborsOnV4
            } else {
                ConfigError::ScopeFamily
            }),
            r matches Ok(st) ==> {
                &&& Some(st.scope) == scope_for(task.scope, af)
                &&& st.scope.spec_family() == af
                &&& st.name == task.name
                &&& st.neighbors@ == (match task.neighbors {
                    Some(n) => n@,
                    None => Seq::<(String, u128)>::empty(),
                })
                &&& st.addr is None
                &&& st.dirty == false
                &&& st.update_tried is None
                &&& st.ttl == (match task.ttl {
                    Some(t) => t,
                    None => 0u32,
                })
                &&& st.zone == task.zone
                &&& st.wf()
            },
    {
        let scope = match &task.scope {
            Some(s) => match parse_cidr(s.as_str()) {
                Some(c) => c,
                None => {
                    return Err(ConfigError::BadScope);
                }
            },
            None => match af {
                AddressFamily::IPv4 => Cidr::v4_default(),
                AddressFamily::IPv6 => Cidr::v6_default(),
            },
        };
        let has_neighbors = match &task.neighbors {
            Some(n) => n.len() > 0,
            None => false,
        };
        if matches!(af, AddressFamily::IPv4) && has_neighbors {
            return Err(ConfigError::NeighborsOnV4);
        }
        let family_ok = match (af, &scope.addr) {
            (AddressFamily::IPv4, Addr::V4(_)) => true,
            (AddressFamily::IPv6, Addr::V6(_)) => true,
            _ => false,
        };
        if !family_ok {
            proof {
                assert(scope_for(task.scope, af) == Some(scope));
            }
            return Err(ConfigError::ScopeFamily);
        }
        proof {
            assert(scope_for(task.scope, af) == Some(scope));
        }
        Ok(Self::new(task, af))
    }

    /// As `try_new`, for a task already known to be acceptable.
    pub fn new(task: Interface, af: AddressFamily) -> (st: RecordState)
        requires
            !scope_parse_fails(task),
            !v4_with_neighbors(task, af),
            !scope_family_mismatch(task, af),
        ensures
            Some(st.scope) == scope_for(task.scope, af),
            st.scope.spec_family() == af,
            st.name == task.name,
            st.neighbors@ == (match task.neighbors {
                Some(n) => n@,
                None => Seq::<(String, u128)>::empty(),
            }),
            st.addr is None,
            st.dirty == false,
            st.update_tried is None,
            st.ttl == (match task.ttl {
                Some(t) => t,
                None => 0u32,
            }),
            st.zone == task.zone,
            st.wf(),
    {
        let scope = match &task.scope {
            Some(s) => match parse_cidr(s.as_str()) {
                Some(c) => c,
                None => vstd::pervasive::unreached(),
            },
            None => match af {
                AddressFamily::IPv4 => Cidr::v4_default(),
                AddressFamily::IPv6 => Cidr::v6_default(),
            },
        };
        proof {
            assert(scope_for(task.scope, af) == Some(scope));
            assert(scope.spec_family() == af);
        }
        RecordState {
            name: task.name,
            neighbors: match task.neighbors {
                Some(n) => n,
                None => Vec::new(),
            },
            addr: None,
            ttl: match task.ttl {
                Some(t) => t,
                None => 0,
            },
            zone: task.zone,
            scope,
            dirty: false,
            update_tried: None,
        }
    }

    /// Store a newly observed address. An address outside the scope, or the
    /// address already held, changes nothing; a new in-scope address is
    /// stored, marks the record dirty and clears the last try.
    pub fn set_address(&mut self, addr: Addr) -> (changed: bool)
        requires
            old(self).wf(),
        ensures
            final(self).wf(),
            (*final(self), changed) == set_address_spec(*old(self), addr),
    {
        if !self.scope.contains(&addr) {
            return false;
        }
        let same = match &self.addr {
            Some(a) => *a == addr,
            None => false,
        };
        if same {
            return false;
        }
        self.addr = Some(addr);
        self.dirty = true;
        self.update_tried = None;
        true
    }

    /// Whether an update may be attempted at `now`.
    #[must_use]
    pub fn can_update(&self, now: u64) -> (r: bool)
        requires
            self.wf(),
        ensures
            r == can_update_spec(*self, now),
    {
        if !self.dirty {
            false
        } else {
            match self.update_tried {
                None => true,
                Some(t) => now >= t + RETRY_INTERVAL_MS,
            }
        }
    }

    /// The instant by which this record wants to be woken, if any.
    #[must_use]
    pub fn next_timeout(&self, now: u64) -> (r: Option<u64>)
        requires
            self.wf(),
        ensures
            r == next_timeout_spec(*self, now),
    {
        if !self.dirty {
            None
        } else {
            match self.update_tried {
                Some(t) => Some(t + RETRY_INTERVAL_MS),
                None => Some(now),
            }
        }
    }

    /// Start an update attempt at `now`: the record is no longer dirty and
    /// remembers the try. Returns the primary target to publish, absent
    /// for a neighbor-only task.
    pub fn begin_update(&mut self, now: u64) -> (primary: Option<(String, Addr)>)
        requires
            old(self).wf(),
            old(self).addr is Some,
            now <= MAX_INSTANT_MS,
        ensures
            final(self).wf(),
            *final(self) == begin_update_state(*old(self), now),
            primary == (match old(self).name {
                Some(n) => Some((n, old(self).addr.unwrap())),
                None => None::<(String, Addr)>,
            }),
    {
        self.dirty = false;
        self.update_tried = Some(now);
        let addr = match &self.addr {
            Some(a) => *a,
            None => vstd::pervasive::unreached(),
        };
        match &self.name {
            Some(n) => Some((n.clone(), addr)),
            None => None,
        }
    }

    /// Report the primary update's outcome. On failure the record is dirty
    /// again and nothing further is published. On success a v6 record hands
    /// back the neighbor records to publish, each under the learned /64
    /// prefix with the template's interface identifier.
    pub fn finish_primary(&mut self, ok: bool) -> (neighbors: Vec<(String, Addr)>)
        requires
            old(self).wf(),
            old(self).addr is Some,
        ensures
            final(self).wf(),
            !ok ==> *final(self) == primary_failed_state(*old(self))
                && neighbors@.len() == 0,
            ok ==> *final(self) == *old(self),
            ok ==> match old(self).addr {
                Some(Addr::V6(b)) => neighbors@.len() == old(self).neighbors@.len()
                    && forall|j: int| 0 <= j < neighbors@.len() ==> neighbors@[j]
                        == (old(self).neighbors@[j].0, Addr::V6(spliced_v6(b, old(self).neighbors@[j].1))),
                _ => neighbors@.len() == 0,
            },
    {
        if !ok {
            self.dirty = true;
            return Vec::new();
        }
        let bits = match &self.addr {
            Some(Addr::V6(b)) => *b,
            _ => {
                return Vec::new();
            }
        };
        let mut out: Vec<(String, Addr)> = Vec::new();
        let mut i: usize = 0;
        while i < self.neighbors.len()
            invariant
                i <= self.neighbors@.len(),
                out@.len() == i,
                forall|j: int| 0 <= j < i ==> out@[j]
                    == (self.neighbors@[j].0, Addr::V6(spliced_v6(bits, self.neighbors@[j].1))),
            decreases self.neighbors@.len() - i,
        {
            let name = self.neighbors[i].0.clone();
            let derived = neighbor_address(bits, self.neighbors[i].1);
            out.push((name, Addr::V6(derived)));
            i += 1;
        }
        out
    }
}

/// An address outside a record's scope is never taken: `set_address`
/// reports no change and leaves the record exactly as it was.
pub proof fn lemma_scope_gate(s: RecordState, a: Addr)
    ensures
        !addr_in_cidr(a, s.scope) ==> set_address_spec(s, a) == (s, false),
{
}

/// Learning the same address twice changes nothing the second time: the
/// second `set_address` reports no change and leaves the state, its
/// dirtiness included, as the first call left it.
pub proof fn lemma_set_address_idempotent(s: RecordState, a: Addr)
    ensures
        set_address_spec(set_address_spec(s, a).0, a).1 == false,
        set_address_spec(set_address_spec(s, a).0, a).0 == set_address_spec(s, a).0,
{
}

/// After an update attempt at `t` whose primary update failed, the record
/// cannot be updated again before `t` plus the retry interval, and can
/// from that instant on.
pub proof fn lemma_retry_schedule(s: RecordState, t: u64, now: u64)
    ensures
        can_update_spec(primary_failed_state(begin_update_state(s, t)), now)
            <==> now >= t + RETRY_INTERVAL_MS,
{
}

/// One record of the reconciler's table, tagged with the interface whose
/// addresses feed it.
#[derive(Debug, Clone)]
pub struct RecordEntry {
    pub interface: String,
    pub state: RecordState,
}

pub open spec fn entries_wf(rs: Seq<RecordEntry>) -> bool {
    forall|i: int| 0 <= i < rs.len() ==> rs[i].state.wf()
}

/// Route one `(interface, address)` event: every record of that interface
/// sees `set_address`; reports whether any of them changed (which starts
/// the debounce window).
pub fn apply_event(records: &mut Vec<RecordEntry>, iface: &String, addr: Addr) -> (changed: bool)
    requires
        entries_wf(old(records)@),
    ensures
        entries_wf(final(records)@),
        final(records)@.len() == old(records)@.len(),
        forall|j: int| 0 <= j < old(records)@.len() ==> {
            &&& final(records)@[j].interface == old(records)@[j].interface
            &&& final(records)@[j].state == (if old(records)@[j].interface@ == iface@ {
                set_address_spec(old(records)@[j].state, addr).0
            } else {
                old(records)@[j].state
            })
        },
        changed == exists|j: int| 0 <= j < old(records)@.len()
            && old(records)@[j].interface@ == iface@
            && set_address_spec(old(records)@[j].state, addr).1,
{
    let mut changed = false;
    let mut i: usize = 0;
    while i < records.len()
        invariant
            i <= records@.len(),
            records@.len() == old(records)@.len(),
            entries_wf(records@),
            forall|j: int| i <= j < records@.len() ==> records@[j] == old(records)@[j],
            forall|j: int| 0 <= j < i ==> {
                &&& records@[j].interface == old(records)@[j].interface
                &&& records@[j].state == (if old(records)@[j].interface@ == iface@ {
                    set_address_spec(old(records)@[j].state, addr).0
                } else {
                    old(records)@[j].state
                })
            },
            changed == exists|j: int| 0 <= j < i
                && old(records)@[j].interface@ == iface@
                && set_address_spec(old(records)@[j].state, addr).1,
        decreases records@.len() - i,
    {
        if records[i].interface.eq(iface) {
            let c = records[i].state.set_address(addr);
            if c {
                changed = true;
            }
        }
        i += 1;
    }
    changed
}

/// The timeout branch of the reconciler's loop: find the first record that
/// may update now and start its update attempt. At most one record is
/// touched per wake-up; all others are left exactly as they were. Returns
/// the chosen index and its primary target, or nothing when no record is
/// due.
pub fn timeout_step(records: &mut Vec<RecordEntry>, now: u64) -> (r: Option<
    (usize, Option<(String, Addr)>),
>)
    requires
        entries_wf(old(records)@),
        now <= MAX_INSTANT_MS,
    ensures
        entries_wf(final(records)@),
        final(records)@.len() == old(records)@.len(),
        r is None ==> final(records)@ == old(records)@
            && forall|j: int| 0 <= j < old(records)@.len()
                ==> !can_update_spec(old(records)@[j].state, now),
        r matches Some((i, primary)) ==> {
            &&& i < old(records)@.len()
            &&& can_update_spec(old(records)@[i as int].state, now)
            &&& forall|j: int| 0 <= j < i ==> !can_update_spec(old(records)@[j].state, now)
            &&& forall|j: int| 0 <= j < old(records)@.len() && j != i
                ==> final(records)@[j] == old(records)@[j]
            &&& final(records)@[i as int].interface == old(records)@[i as int].interface
            &&& final(records)@[i as int].state
                == begin_update_state(old(records)@[i as int].state, now)
            &&& primary == (match old(records)@[i as int].state.name {
                Some(n) => Some((n, old(records)@[i as int].state.addr.unwrap())),
                None => None::<(String, Addr)>,
            })
        },
{
    let mut i: usize = 0;
    while i < records.len()
        invariant
            i <= records@.len(),
            records@ == old(records)@,
            entries_wf(records@),
            now <= MAX_INSTANT_MS,
            forall|j: int| 0 <= j < i ==> !can_update_spec(old(records)@[j].state, now),
        decreases records@.len() - i,
    {
        if records[i].state.can_update(now) {
            let primary = records[i].state.begin_update(now);
            return Some((i, primary));
        }
        i += 1;
    }
    None
}

/// Report the outcome of the primary update started for `records[i]`; see
/// `RecordState::finish_primary`. An index out of range, or a record
/// without an address, yields no neighbors and changes nothing.
pub fn finish_primary_at(records: &mut Vec<RecordEntry>, i: usize, ok: bool) -> (neighbors: Vec<
    (String, Addr),
>)
    requires
        entries_wf(old(records)@),
    ensures
        entries_wf(final(records)@),
        final(records)@.len() == old(records)@.len(),
        forall|j: int| 0 <= j < old(records)@.len() && j != i
            ==> final(records)@[j] == old(records)@[j],
        !(i < old(records)@.len() && old(records)@[i as int].state.addr is Some)
            ==> final(records)@ == old(records)@ && neighbors@.len() == 0,
        i < old(records)@.len() && old(records)@[i as int].state.addr is Some ==> {
            &&& final(records)@[i as int].interface == old(records)@[i as int].interface
            &&& (!ok ==> final(records)@[i as int].state
                == primary_failed_state(old(records)@[i as int].state) && neighbors@.len() == 0)
            &&& (ok ==> final(records)@[i as int].state == old(records)@[i as int].state)
            &&& (ok ==> match old(records)@[i as int].state.addr {
                Some(Addr::V6(b)) => neighbors@.len()
                    == old(records)@[i as int].state.neighbors@.len()
                    && forall|j: int| 0 <= j < neighbors@.len() ==> neighbors@[j]
                        == (old(records)@[i as int].state.neighbors@[j].0,
                            Addr::V6(spliced_v6(b, old(records)@[i as int].state.neighbors@[j].1))),
                _ => neighbors@.len() == 0,
            })
        },
{
    if i >= records.len() {
        return Vec::new();
    }
    let has_addr = records[i].state.addr.is_some();
    if !has_addr {
        return Vec::new();
    }
    records[i].state.finish_primary(ok)
}

/// The wait until a record's deadline, clipped below at zero.
pub open spec fn interval_of(s: RecordState, now: u64) -> Option<u64> {
    match next_timeout_spec(s, now) {
        None => None,
        Some(dl) => Some(if dl <= now { 0u64 } else { (dl - now) as u64 }),
    }
}

/// How long the reconciler should wait before the next update attempt: the
/// smallest wait any dirty record asks for, or nothing when every record
/// is clean.
pub fn next_interval(records: &Vec<RecordEntry>, now: u64) -> (r: Option<u64>)
    requires
        entries_wf(records@),
    ensures
        r is None <==> forall|j: int| 0 <= j < records@.len()
            ==> interval_of(records@[j].state, now) is None,
        r matches Some(d) ==> (exists|j: int| 0 <= j < records@.len()
            && interval_of(records@[j].state, now) == Some(d))
            && forall|j: int| 0 <= j < records@.len()
                ==> (#[trigger] interval_of(records@[j].state, now) matches Some(x) ==> x >= d),
{
    let mut best: Option<u64> = None;
    let mut i: usize = 0;
    while i < records.len()
        invariant
            i <= records@.len(),
            entries_wf(records@),
            best is None ==> forall|j: int| 0 <= j < i
                ==> interval_of(records@[j].state, now) is None,
            best matches Some(d) ==> (exists|j: int| 0 <= j < i
                && interval_of(records@[j].state, now) == Some(d))
                && forall|j: int| 0 <= j < i
                    ==> (#[trigger] interval_of(records@[j].state, now) matches Some(x) ==> x >= d),
        decreases records@.len() - i,
    {
        let st = &records[i].state;
        match st.next_timeout(now) {
            None => {}
            Some(dl) => {
                let w: u64 = if dl <= now {
                    0
                } else {
                    dl - now
                };
                assert(interval_of(records@[i as int].state, now) == Some(w));
                match best {
                    None => {
                        best = Some(w);
                    }
                    Some(b) => {
                        if w < b {
                            best = Some(w);
                        }
                    }
                }
            }
        }
        i += 1;
    }
    best
}

} // verus!
