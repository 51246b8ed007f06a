//! systemd-logind idle properties, as `busctl get-property` prints them.

use vstd::prelude::*;

use crate::text::{cat, parse_u64, parse_unsigned, split, split_char, split_ws, str_eq, views, words};

verus! {

broadcast use vstd::string::group_string_axioms;

/// A property value of type `b` (boolean) or `t` (unsigned 64-bit).
#[derive(Debug, Clone, Copy, PartialEq, Eq)]
pub enum BoolOrU64 {
    Bool(bool),
    U64(u64),
}

impl BoolOrU64 {
    /// The boolean, if this is one.
    pub fn bool(self) -> (r: Option<bool>)
        ensures
            r == match self {
                BoolOrU64::Bool(b) => Some(b),
                _ => None::<bool>,
            },
    {
        match self {
            BoolOrU64::Bool(b) => Some(b),
            _ => None,
        }
    }

    /// The integer, if this is one.
    pub fn u64(self) -> (r: Option<u64>)
        ensures
            r == match self {
                BoolOrU64::U64(u) => Some(u),
                _ => None::<u64>,
            },
    {
        match self {
            BoolOrU64::U64(u) => Some(u),
            _ => None,
        }
    }
}

/// Idle state of the session as logind reports it.
#[derive(Debug, Clone, Copy, PartialEq, Eq)]
pub struct IdleStatus {
    pub is_idle: bool,
    pub idle_since_micros: u64,
}

/// The value in `busctl get-property` output: its first two words, a type signature and
/// the value; `b` gives a boolean (`true` or anything else as false), `t` a `u64`.
pub open spec fn busctl_value(out: Seq<char>) -> Option<BoolOrU64> {
    let parts = words(out);
    if parts.len() < 2 {
        None
    } else if parts[0] == "b"@ {
        Some(BoolOrU64::Bool(parts[1] == "true"@))
    } else if parts[0] == "t"@ {
        match parse_unsigned(parts[1], u64::MAX as nat) {
            Some(v) => Some(BoolOrU64::U64(v as u64)),
            None => None,
        }
    } else {
        None
    }
}

/// Read a property value from the standard output of a successful `busctl get-property`.
pub fn parse_busctl_property(stdout: &str) -> (r: Option<BoolOrU64>)
    ensures
        r == busctl_value(stdout@),
{
    let parts = split_ws(stdout);
    if parts.len() < 2 {
        return None;
    }
    assert(crate::text::views(parts@)[0] == parts@[0]@);
    assert(crate::text::views(parts@)[1] == parts@[1]@);
    if str_eq(parts[0], "b") {
        Some(BoolOrU64::Bool(str_eq(parts[1], "true")))
    } else if str_eq(parts[0], "t") {
        match parse_u64(parts[1]) {
            Some(v) => Some(BoolOrU64::U64(v)),
            None => None,
        }
    } else {
        None
    }
}

/// The logind object path for `sub_path` (`session/self`, or empty for the manager).
pub open spec fn logind_path(sub_path: Seq<char>) -> Seq<char> {
    if sub_path.len() == 0 {
        "/org/freedesktop/login1"@
    } else {
        "/org/freedesktop/login1/"@ + sub_path
    }
}

/// The logind object path for `sub_path`.
pub fn logind_object_path(sub_path: &str) -> (r: String)
    ensures
        r@ == logind_path(sub_path@),
{
    if sub_path.is_empty() {
        "/org/freedesktop/login1".to_string()
    } else {
        cat("/org/freedesktop/login1/", sub_path)
    }
}

/// The idle status from an `IdleHint` and an `IdleSinceHint` reading, when both are
/// readings of the expected type.
pub open spec fn idle_status(hint: Option<BoolOrU64>, since: Option<BoolOrU64>) -> Option<IdleStatus> {
    match (hint, since) {
        (Some(BoolOrU64::Bool(b)), Some(BoolOrU64::U64(t))) => Some(IdleStatus { is_idle: b, idle_since_micros: t }),
        _ => None,
    }
}

/// Combine the two readings of one logind endpoint.
pub fn idle_status_from(hint: Option<BoolOrU64>, since: Option<BoolOrU64>) -> (r: Option<IdleStatus>)
    ensures
        r == idle_status(hint, since),
{
    let is_idle = match hint {
        Some(h) => h.bool(),
        None => None,
    };
    let idle_since = match since {
        Some(s) => s.u64(),
        None => None,
    };
    match (is_idle, idle_since) {
        (Some(b), Some(t)) => Some(IdleStatus { is_idle: b, idle_since_micros: t }),
        _ => None,
    }
}

/// The idle status logind reports: the session's own (`session/self`, Session interface)
/// when both its readings are usable, else the manager's.
pub open spec fn logind_idle(
    session_hint: Option<BoolOrU64>,
    session_since: Option<BoolOrU64>,
    manager_hint: Option<BoolOrU64>,
    manager_since: Option<BoolOrU64>,
) -> Option<IdleStatus> {
    match idle_status(session_hint, session_since) {
        Some(s) => Some(s),
        None => idle_status(manager_hint, manager_since),
    }
}

/// The idle status from the `IdleHint` and `IdleSinceHint` readings of the session
/// endpoint, falling back to those of the manager endpoint.
pub fn query_logind_idle(
    session_hint: Option<BoolOrU64>,
    session_since: Option<BoolOrU64>,
    manager_hint: Option<BoolOrU64>,
    manager_since: Option<BoolOrU64>,
) -> (r: Option<IdleStatus>)
    ensures
        r == logind_idle(session_hint, session_since, manager_hint, manager_since),
{
    match idle_status_from(session_hint, session_since) {
        Some(s) => Some(s),
        None => idle_status_from(manager_hint, manager_since),
    }
}

/// Some logind inhibitor blocks idle: one of its colon-separated `what` kinds is `idle`.
pub open spec fn blocks_idle(whats: Seq<Seq<char>>) -> bool {
    exists|i: int, j: int| 0 <= i < whats.len() && 0 <= j < split(whats[i], ':').len() && split(whats[i], ':')[j] == "idle"@
}

/// Whether the inhibitors logind lists (by their `what` fields) block idle.
pub fn inhibitors_block_idle(whats: &Vec<String>) -> (r: bool)
    ensures
        r == blocks_idle(crate::cli_config::arg_views(whats@)),
{
    let ghost w = crate::cli_config::arg_views(whats@);
    let mut i: usize = 0;
    while i < whats.len()
        invariant
            i <= whats.len(),
            w == crate::cli_config::arg_views(whats@),
            forall|a: int, b: int| 0 <= a < i && 0 <= b < split(w[a], ':').len() ==> split(w[a], ':')[b] != "idle"@,
        decreases whats.len() - i,
    {
        assert(w[i as int] == whats@[i as int]@);
        let kinds = split_char(whats[i].as_str(), ':');
        let mut j: usize = 0;
        while j < kinds.len()
            invariant
                i < whats.len(),
                j <= kinds.len(),
                w == crate::cli_config::arg_views(whats@),
                w[i as int] == whats@[i as int]@,
                views(kinds@) == split(w[i as int], ':'),
                forall|a: int, b: int| 0 <= a < i && 0 <= b < split(w[a], ':').len() ==> split(w[a], ':')[b] != "idle"@,
                forall|b: int| 0 <= b < j ==> split(w[i as int], ':')[b] != "idle"@,
            decreases kinds.len() - j,
        {
            assert(views(kinds@)[j as int] == kinds@[j as int]@);
            if str_eq(kinds[j], "idle") {
                assert(split(w[i as int], ':')[j as int] == "idle"@);
                return true;
            }
            j = j + 1;
        }
        i = i + 1;
    }
    false
}

} // verus!
