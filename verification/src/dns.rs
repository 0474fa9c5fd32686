//! DNS-side decisions: which record type an address publishes, which zone
//! an update goes to, and whether an update is needed at all after the
//! pre-update query.

pub mod mac;
pub mod tsig;
pub mod tsig2;
pub mod wire;

use vstd::prelude::*;
use vstd::string::StrSliceExecFns;
use crate::addr::Addr;

verus! {

#[derive(Clone, Copy, Debug, PartialEq, Eq, Structural)]
pub enum RecordType {
    A,
    AAAA,
}

/// The record type an address is published under: `A` for v4, `AAAA` for
/// v6.
pub fn record_type_of(addr: &Addr) -> (r: RecordType)
    ensures
        r == (match addr {
            Addr::V4(_) => RecordType::A,
            Addr::V6(_) => RecordType::AAAA,
        }),
{
    match addr {
        Addr::V4(_) => RecordType::A,
        Addr::V6(_) => RecordType::AAAA,
    }
}

/// Whether an update transaction must be sent after the pre-update query:
/// only a successful query answering exactly the address to publish makes
/// the update unnecessary.
pub open spec fn update_needed(answers: Result<Seq<Addr>, Seq<char>>, addr: Addr) -> bool {
    !(answers matches Ok(ans) && ans.len() == 1 && ans[0] == addr)
}

/// Decide from the pre-update query's outcome whether to send the update.
/// A failed query counts as "unknown" and the update is attempted.
pub fn should_send_update(answers: &Result<Vec<Addr>, String>, addr: &Addr) -> (r: bool)
    ensures
        r == update_needed(
            match answers {
                Ok(v) => Ok(v@),
                Err(e) => Err(e@),
            },
            *addr,
        ),
{
    match answers {
        Ok(ans) => !(ans.len() == 1 && ans[0] == *addr),
        Err(_) => true,
    }
}

/// The position of the first dot in `s` at or after `i`, or -1.
pub open spec fn first_dot_from(s: Seq<char>, i: int) -> int
    decreases s.len() - i,
{
    if i < 0 || i >= s.len() {
        -1
    } else if s[i] == '.' {
        i
    } else {
        first_dot_from(s, i + 1)
    }
}

/// The parent of a domain name: everything after its first label, or the
/// root (empty) where it has a single label.
pub open spec fn parent_of(s: Seq<char>) -> Seq<char> {
    let d = first_dot_from(s, 0);
    if d == -1 {
        Seq::empty()
    } else {
        s.subrange(d + 1, s.len() as int)
    }
}

/// Drop a name's first label: the parent zone an update defaults to.
pub fn parent_name(name: &str) -> (r: String)
    ensures
        r@ == parent_of(name@),
{
    let len = name.unicode_len();
    let mut i: usize = 0;
    while i < len
        invariant
            i <= len,
            len == name@.len(),
            first_dot_from(name@, 0) == first_dot_from(name@, i as int),
        decreases len - i,
    {
        let c = name.get_char(i);
        if c == '.' {
            proof {
                assert(first_dot_from(name@, i as int) == i);
            }
            let sub = name.substring_char(i + 1, len);
            return sub.to_owned();
        }
        i += 1;
    }
    proof {
        assert(first_dot_from(name@, len as int) == -1);
    }
    String::new()
}

/// The zone an update for `name` is addressed to: the configured zone, or
/// the name's parent where none is configured.
pub fn update_zone(name: &str, zone: &Option<String>) -> (r: String)
    ensures
        r@ == (match zone {
            Some(z) => z@,
            None => parent_of(name@),
        }),
{
    match zone {
        Some(z) => z.clone(),
        None => parent_name(name),
    }
}

} // verus!
