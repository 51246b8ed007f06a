//! Reconstruction of `org.freedesktop.ScreenSaver` inhibit calls made by other
//! programs, from the text that `dbus-monitor` prints, one line at a time.
//!
//! `Inhibit(application, reason)` is recorded by the serial of its method call and
//! becomes an inhibitor when the matching method return carries the cookie;
//! `UnInhibit(cookie)` releases the caller's inhibitor.

use std::collections::HashMap;

use vstd::prelude::*;

use crate::text::{
    chars_of, contains, occurs_at, contains_str, find, find_str, is_whitespace, is_ws, lemma_find_from_none,
    parse_u32, parse_unsigned, split, starts_with, starts_with_str, strip_prefix_str, trim,
    trim_bounds, trim_class, trim_str, trim_ws, CharClass,
};

verus! {

broadcast use {vstd::string::group_string_axioms, vstd::std_specs::hash::group_hash_axioms};

/// A character that ends a `key=value` field in a `dbus-monitor` header line.
pub open spec fn field_stop(c: char) -> bool {
    is_ws(c) || c == ';' || c == ','
}

/// The first position at or after `i` of a field-ending character of `s`, or `s.len()`.
pub open spec fn stop_index(s: Seq<char>, i: int) -> int
    decreases s.len() - i,
{
    if i < 0 || i >= s.len() {
        s.len() as int
    } else if field_stop(s[i]) {
        i
    } else {
        stop_index(s, i + 1)
    }
}

/// The value after the first occurrence of `prefix` in `line`, up to the next
/// whitespace, `;` or `,`, with surrounding `"` removed.
pub open spec fn field_value(line: Seq<char>, prefix: Seq<char>) -> Option<Seq<char>> {
    match find(line, prefix) {
        Some(p) => {
            let rest = line.subrange(p + prefix.len(), line.len() as int);
            Some(trim(rest.take(stop_index(rest, 0)), CharClass::Only('"')))
        },
        None => None,
    }
}

/// The value of the field `prefix` (such as `sender=`) in a `dbus-monitor` header line.
pub fn extract_field(line: &str, prefix: &str) -> (r: Option<String>)
    ensures
        match r {
            Some(v) => field_value(line@, prefix@) == Some(v@),
            None => field_value(line@, prefix@) is None,
        },
{
    match find_str(line, prefix) {
        None => None,
        Some(pos) => {
            let cs = chars_of(line);
            let pl = chars_of(prefix);
            proof {
                lemma_find_from_none(line@, prefix@, 0);
            }
            assert(occurs_at(line@, prefix@, pos as int));
            assert(pos + pl@.len() <= cs@.len());
            assert(pos + pl.len() <= cs.len());
            let start = pos + pl.len();
            let ghost rest = line@.subrange(start as int, line@.len() as int);
            let mut end = start;
            while end < cs.len() && !(is_whitespace(cs[end]) || cs[end] == ';' || cs[end] == ',')
                invariant
                    cs@ == line@,
                    start <= end <= cs@.len(),
                    rest == cs@.subrange(start as int, cs@.len() as int),
                    stop_index(rest, 0) == stop_index(rest, end - start),
                decreases cs.len() - end,
            {
                assert(rest[end - start] == cs@[end as int]);
                end = end + 1;
            }
            proof {
                if end < cs@.len() {
                    assert(rest[end - start] == cs@[end as int]);
                }
                assert(rest.take(end - start) =~= cs@.subrange(start as int, end as int));
            }
            let (a, b) = trim_bounds(&cs, start, end, CharClass::Only('"'));
            Some(line.substring_char(a, b).to_string())
        },
    }
}

/// A character allowed in an element of a unique D-Bus name.
pub open spec fn unique_name_char(c: char) -> bool {
    let u = c as u32;
    (48 <= u && u <= 57) || (65 <= u && u <= 90) || (97 <= u && u <= 122) || c == '_' || c == '-'
}

/// A valid unique bus name: the bus's own name `org.freedesktop.DBus`, or `:` followed by
/// at least two nonempty `.`-separated elements of ASCII letters, digits, `_` and `-`;
/// at most 255 characters either way.
pub open spec fn valid_unique_name(s: Seq<char>) -> bool {
    &&& s.len() <= 255
    &&& (s == "org.freedesktop.DBus"@ || (s.len() > 0 && s[0] == ':' && {
        let parts = split(s.drop_first(), '.');
        &&& parts.len() >= 2
        &&& forall|i: int|
            0 <= i < parts.len() ==> #[trigger] parts[i].len() > 0 && forall|j: int|
                0 <= j < parts[i].len() ==> unique_name_char(parts[i][j])
    }))
}

/// `zbus::names::UniqueName::try_from` (zbus_names `unique_name::validate`) succeeds on
/// exactly the valid unique bus names.
#[verifier::external_body]
fn unique_name_is_valid(name: &str) -> (b: bool)
    ensures
        b == valid_unique_name(name@),
{
    zbus::names::UniqueName::try_from(name).is_ok()
}

/// The ScreenSaver method whose arguments the following lines carry.
#[derive(Clone, Copy, Debug, PartialEq, Eq)]
pub enum MonitorMember {
    Inhibit,
    UnInhibit,
}

/// An `Inhibit` call seen but not yet answered, keyed by its serial.
#[derive(Clone, Debug)]
pub struct PendingInhibit {
    pub sender: String,
    pub application_name: String,
    pub reason: String,
}

/// A change to the inhibitor set that the monitored traffic implies.
#[derive(Clone, Debug, PartialEq, Eq)]
pub enum InhibitEvent {
    /// `client` now holds an inhibitor with this cookie.
    Add { application_name: String, reason: String, client: String, cookie: u32 },
    /// `client` released the inhibitor with this cookie.
    Remove { cookie: u32, client: String },
}

pub enum InhibitEventView {
    Add { application_name: Seq<char>, reason: Seq<char>, client: Seq<char>, cookie: u32 },
    Remove { cookie: u32, client: Seq<char> },
}

impl View for InhibitEvent {
    type V = InhibitEventView;

    open spec fn view(&self) -> InhibitEventView {
        match self {
            InhibitEvent::Add { application_name, reason, client, cookie } => InhibitEventView::Add {
                application_name: application_name@,
                reason: reason@,
                client: client@,
                cookie: *cookie,
            },
            InhibitEvent::Remove { cookie, client } => InhibitEventView::Remove {
                cookie: *cookie,
                client: client@,
            },
        }
    }
}

pub open spec fn event_view(e: Option<InhibitEvent>) -> Option<InhibitEventView> {
    match e {
        Some(e) => Some(e@),
        None => None,
    }
}

/// The state the parser carries from one line to the next.
pub struct MonitorView {
    pub member: Option<MonitorMember>,
    pub sender: Option<Seq<char>>,
    pub serial: Option<u32>,
    pub reply_serial: Option<u32>,
    pub app_name: Option<Seq<char>>,
    /// Unanswered `Inhibit` calls: serial to (sender, application, reason).
    pub pending: Map<u32, (Seq<char>, Seq<char>, Seq<char>)>,
}

pub open spec fn opt_view(o: Option<String>) -> Option<Seq<char>> {
    match o {
        Some(s) => Some(s@),
        None => None,
    }
}

pub open spec fn pending_view(p: PendingInhibit) -> (Seq<char>, Seq<char>, Seq<char>) {
    (p.sender@, p.application_name@, p.reason@)
}

/// The line state after a method-call or method-return header: nothing carried over
/// but the unanswered calls.
pub open spec fn cleared(st: MonitorView) -> MonitorView {
    MonitorView {
        member: None,
        sender: None,
        serial: None,
        reply_serial: None,
        app_name: None,
        pending: st.pending,
    }
}

/// The decimal `u32` in `s`, if any.
pub open spec fn parse_u32_spec(s: Seq<char>) -> Option<u32> {
    match parse_unsigned(s, u32::MAX as nat) {
        Some(v) => Some(v as u32),
        None => None,
    }
}

/// The header of a ScreenSaver method call: remember sender, serial and member.
pub open spec fn step_call(st: MonitorView, line: Seq<char>) -> MonitorView {
    let sender = field_value(line, "sender="@);
    let serial = match field_value(line, "serial="@) {
        Some(t) => parse_u32_spec(t),
        None => None,
    };
    if contains(line, "interface=org.freedesktop.ScreenSaver"@) && sender is Some && serial is Some {
        MonitorView {
            member: if contains(line, "member=Inhibit"@) {
                Some(MonitorMember::Inhibit)
            } else if contains(line, "member=UnInhibit"@) {
                Some(MonitorMember::UnInhibit)
            } else {
                None
            },
            sender: sender,
            serial: serial,
            ..cleared(st)
        }
    } else {
        cleared(st)
    }
}

/// A string argument: the first names the application of an `Inhibit` call, the
/// second (its reason) completes the call and records it as unanswered.
pub open spec fn step_string(st: MonitorView, arg: Seq<char>) -> MonitorView {
    if arg.len() > 0 && st.member == Some(MonitorMember::Inhibit) {
        let val = trim(arg, CharClass::Only('"'));
        if st.app_name is None {
            MonitorView { app_name: Some(val), ..st }
        } else {
            MonitorView {
                app_name: None,
                member: None,
                pending: if st.sender is Some && st.serial is Some {
                    st.pending.insert(st.serial->0, (st.sender->0, st.app_name->0, val))
                } else {
                    st.pending
                },
                ..st
            }
        }
    } else {
        st
    }
}

/// A `uint32` argument: the cookie of an `UnInhibit` call, or the cookie returned to
/// an answered `Inhibit` call.
pub open spec fn step_cookie(st: MonitorView, cookie: u32) -> (MonitorView, Option<InhibitEventView>) {
    match st.member {
        Some(MonitorMember::UnInhibit) => (
            MonitorView { member: None, ..st },
            if st.sender is Some && valid_unique_name(st.sender->0) {
                Some(InhibitEventView::Remove { cookie, client: st.sender->0 })
            } else {
                None
            },
        ),
        Some(MonitorMember::Inhibit) => (st, None),
        None => match st.reply_serial {
            Some(rs) => (
                MonitorView { pending: st.pending.remove(rs), reply_serial: None, ..st },
                if st.pending.contains_key(rs) && valid_unique_name(st.pending[rs].0) {
                    Some(
                        InhibitEventView::Add {
                            application_name: st.pending[rs].1,
                            reason: st.pending[rs].2,
                            client: st.pending[rs].0,
                            cookie,
                        },
                    )
                } else {
                    None
                },
            ),
            None => (st, None),
        },
    }
}

/// One line of `dbus-monitor` output, taken after trimming whitespace.
pub open spec fn step(st: MonitorView, raw: Seq<char>) -> (MonitorView, Option<InhibitEventView>) {
    let line = trim_ws(raw);
    if starts_with(line, "method call "@) {
        (step_call(st, line), None)
    } else if starts_with(line, "method return "@) {
        let reply = match field_value(line, "reply_serial="@) {
            Some(t) => parse_u32_spec(t),
            None => None,
        };
        (MonitorView { reply_serial: reply, ..cleared(st) }, None)
    } else if starts_with(line, "string "@) {
        (step_string(st, line.subrange("string "@.len() as int, line.len() as int)), None)
    } else if starts_with(line, "uint32 "@) && parse_u32_spec(
        trim_ws(line.subrange("uint32 "@.len() as int, line.len() as int)),
    ) is Some {
        step_cookie(
            st,
            parse_u32_spec(trim_ws(line.subrange("uint32 "@.len() as int, line.len() as int)))->0,
        )
    } else {
        (st, None)
    }
}

/// Line-by-line parser of `dbus-monitor` output for ScreenSaver inhibit traffic.
pub struct MonitorParser {
    member: Option<MonitorMember>,
    sender: Option<String>,
    serial: Option<u32>,
    reply_serial: Option<u32>,
    app_name: Option<String>,
    pending: HashMap<u32, PendingInhibit>,
}

impl View for MonitorParser {
    type V = MonitorView;

    closed spec fn view(&self) -> MonitorView {
        MonitorView {
            member: self.member,
            sender: opt_view(self.sender),
            serial: self.serial,
            reply_serial: self.reply_serial,
            app_name: opt_view(self.app_name),
            pending: self.pending@.map_values(|p: PendingInhibit| pending_view(p)),
        }
    }
}

fn parse_u32_opt(t: Option<String>) -> (r: Option<u32>)
    ensures
        r == match opt_view(t) {
            Some(v) => parse_u32_spec(v),
            None => None,
        },
{
    match t {
        Some(t) => parse_u32(t.as_str()),
        None => None,
    }
}

impl MonitorParser {
    /// A parser that has seen no traffic.
    pub fn new() -> (p: Self)
        ensures
            p@ == (MonitorView {
                member: None,
                sender: None,
                serial: None,
                reply_serial: None,
                app_name: None,
                pending: Map::empty(),
            }),
    {
        let p = MonitorParser {
            member: None,
            sender: None,
            serial: None,
            reply_serial: None,
            app_name: None,
            pending: HashMap::new(),
        };
        assert(p@.pending =~= Map::empty());
        p
    }

    /// Take one line of `dbus-monitor` output; returns the inhibitor change it completes.
    pub fn feed_line(&mut self, raw: &str) -> (event: Option<InhibitEvent>)
        ensures
            (final(self)@, event_view(event)) == step(old(self)@, raw@),
    {
        let line = trim_str(raw);
        if starts_with_str(line, "method call ") {
            self.clear_line_state();
            let sender = extract_field(line, "sender=");
            let serial = parse_u32_opt(extract_field(line, "serial="));
            if contains_str(line, "interface=org.freedesktop.ScreenSaver") && sender.is_some()
                && serial.is_some() {
                self.sender = sender;
                self.serial = serial;
                if contains_str(line, "member=Inhibit") {
                    self.member = Some(MonitorMember::Inhibit);
                } else if contains_str(line, "member=UnInhibit") {
                    self.member = Some(MonitorMember::UnInhibit);
                }
            }
            None
        } else if starts_with_str(line, "method return ") {
            self.clear_line_state();
            self.reply_serial = parse_u32_opt(extract_field(line, "reply_serial="));
            None
        } else if let Some(arg) = strip_prefix_str(line, "string ") {
            self.take_string(arg);
            None
        } else if let Some(arg) = strip_prefix_str(line, "uint32 ") {
            match parse_u32(trim_str(arg)) {
                Some(cookie) => self.take_cookie(cookie),
                None => None,
            }
        } else {
            None
        }
    }

    fn clear_line_state(&mut self)
        ensures
            final(self)@ == cleared(old(self)@),
    {
        self.member = None;
        self.sender = None;
        self.serial = None;
        self.reply_serial = None;
        self.app_name = None;
    }

    fn take_string(&mut self, arg: &str)
        ensures
            final(self)@ == step_string(old(self)@, arg@),
    {
        if arg.is_empty() {
            return;
        }
        match self.member {
            Some(MonitorMember::Inhibit) => {},
            _ => {
                return;
            },
        }
        let val = trim_class(arg, CharClass::Only('"')).to_string();
        if self.app_name.is_none() {
            self.app_name = Some(val);
            return;
        }
        let app = self.app_name.take();
        match (&self.sender, self.serial, app) {
            (Some(sender), Some(serial), Some(app)) => {
                let entry = PendingInhibit {
                    sender: sender.clone(),
                    application_name: app,
                    reason: val,
                };
                let ghost old_pending = self.pending@;
                self.pending.insert(serial, entry);
                proof {
                    assert(self.pending@.map_values(|p: PendingInhibit| pending_view(p))
                        =~= old_pending.map_values(|p: PendingInhibit| pending_view(p)).insert(
                        serial,
                        pending_view(entry),
                    ));
                }
            },
            _ => {},
        }
        self.member = None;
    }

    fn take_cookie(&mut self, cookie: u32) -> (event: Option<InhibitEvent>)
        ensures
            (final(self)@, event_view(event)) == step_cookie(old(self)@, cookie),
    {
        match self.member {
            Some(MonitorMember::UnInhibit) => {
                self.member = None;
                match &self.sender {
                    Some(sender) => {
                        if unique_name_is_valid(sender.as_str()) {
                            Some(InhibitEvent::Remove { cookie, client: sender.clone() })
                        } else {
                            None
                        }
                    },
                    None => None,
                }
            },
            Some(MonitorMember::Inhibit) => None,
            None => match self.reply_serial {
                Some(rs) => {
                    let ghost old_pending = self.pending@;
                    let removed = self.pending.remove(&rs);
                    self.reply_serial = None;
                    proof {
                        assert(self.pending@.map_values(|p: PendingInhibit| pending_view(p))
                            =~= old_pending.map_values(|p: PendingInhibit| pending_view(p)).remove(
                            rs,
                        ));
                    }
                    match removed {
                        Some(p) => {
                            if unique_name_is_valid(p.sender.as_str()) {
                                Some(
                                    InhibitEvent::Add {
                                        application_name: p.application_name,
                                        reason: p.reason,
                                        client: p.sender,
                                        cookie,
                                    },
                                )
                            } else {
                                None
                            }
                        },
                        None => None,
                    }
                },
                None => None,
            },
        }
    }
}

} // verus!
