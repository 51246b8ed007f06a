//! The set of screensaver inhibitors that D-Bus clients hold, with a per-client
//! limit and cookies handed out in sequence, and a short-lived cache of logind's
//! idle inhibitors.

use vstd::prelude::*;

use crate::text::str_eq;

verus! {

broadcast use vstd::string::group_string_axioms;

/// Most inhibitors one client may hold at a time.
pub const MAX_INHIBITORS_PER_CLIENT: usize = 32;

/// How long a logind answer is reused, in milliseconds.
pub const LOGIND_CACHE_MILLIS: u64 = 2000;

/// One inhibitor held by a D-Bus client (named by its unique bus name).
#[derive(Debug, Clone)]
pub struct Inhibitor {
    pub cookie: u32,
    pub application_name: String,
    pub reason: String,
    pub client: String,
}

/// The mathematical value of an inhibitor.
pub struct InhibitorView {
    pub cookie: u32,
    pub application_name: Seq<char>,
    pub reason: Seq<char>,
    pub client: Seq<char>,
}

impl View for Inhibitor {
    type V = InhibitorView;

    open spec fn view(&self) -> InhibitorView {
        InhibitorView {
            cookie: self.cookie,
            application_name: self.application_name@,
            reason: self.reason@,
            client: self.client@,
        }
    }
}

/// Why an inhibitor was refused.
#[derive(Debug, Clone, Copy, PartialEq, Eq)]
pub enum InhibitError {
    /// The client already holds the maximum number of inhibitors.
    TooManyForClient,
}

impl InhibitError {
    /// The message the D-Bus method reports.
    pub fn message(&self) -> (s: &'static str)
        ensures
            s@ == "too many concurrent inhibitors for this client"@,
    {
        "too many concurrent inhibitors for this client"
    }
}

/// What answers whether presentation is inhibited right now.
#[derive(Debug, Clone, Copy, PartialEq, Eq)]
pub enum InhibitCheck {
    /// The answer, without asking logind.
    Known(bool),
    /// No client holds an inhibitor and the cached logind answer is stale:
    /// ask logind and report the answer with `record_logind`.
    QueryLogind,
}

/// Number of entries of `s` held by `client`.
pub open spec fn count_for(s: Seq<InhibitorView>, client: Seq<char>) -> nat
    decreases s.len(),
{
    if s.len() == 0 {
        0
    } else {
        count_for(s.drop_last(), client) + if s.last().client == client {
            1nat
        } else {
            0nat
        }
    }
}

/// The first index of an entry with this cookie held by this client.
pub open spec fn first_match_from(s: Seq<InhibitorView>, cookie: u32, client: Seq<char>, i: int) -> Option<int>
    decreases s.len() - i,
{
    if i < 0 || i >= s.len() {
        None
    } else if s[i].cookie == cookie && s[i].client == client {
        Some(i)
    } else {
        first_match_from(s, cookie, client, i + 1)
    }
}

pub open spec fn first_match(s: Seq<InhibitorView>, cookie: u32, client: Seq<char>) -> Option<int> {
    first_match_from(s, cookie, client, 0)
}

/// The entries of `s` not held by `client`, in order.
pub open spec fn without_client(s: Seq<InhibitorView>, client: Seq<char>) -> Seq<InhibitorView>
    decreases s.len(),
{
    if s.len() == 0 {
        s
    } else {
        let prev = without_client(s.drop_last(), client);
        if s.last().client == client {
            prev
        } else {
            prev.push(s.last())
        }
    }
}

/// Whether some entry of `s` has this cookie and client.
pub open spec fn holds(s: Seq<InhibitorView>, cookie: u32, client: Seq<char>) -> bool {
    exists|i: int| 0 <= i < s.len() && s[i].cookie == cookie && s[i].client == client
}

/// The registry of inhibitors, the last cookie handed out, and the cached logind answer.
pub struct InhibitorState {
    inhibitors: Vec<Inhibitor>,
    last_cookie: u32,
    logind_inhibited: bool,
    logind_checked_at: Option<u64>,
}

impl InhibitorState {
    /// The inhibitors, in the order they were added.
    pub closed spec fn entries(&self) -> Seq<InhibitorView> {
        self.inhibitors@.map_values(|e: Inhibitor| e@)
    }

    /// The cookie most recently handed out by `add` (0 before the first).
    pub closed spec fn spec_last_cookie(&self) -> u32 {
        self.last_cookie
    }

    /// The cached logind answer and the time it was obtained.
    pub closed spec fn logind_cache(&self) -> (bool, Option<u64>) {
        (self.logind_inhibited, self.logind_checked_at)
    }

    /// No inhibitors, no cookie handed out, no logind answer yet.
    pub fn new() -> (s: Self)
        ensures
            s.entries() == Seq::<InhibitorView>::empty(),
            s.spec_last_cookie() == 0,
            s.logind_cache() == (false, None::<u64>),
    {
        let s = InhibitorState {
            inhibitors: Vec::new(),
            last_cookie: 0,
            logind_inhibited: false,
            logind_checked_at: None,
        };
        assert(s.entries() =~= Seq::<InhibitorView>::empty());
        s
    }

    /// Whether presentation is inhibited at `now_millis` (a monotonic clock): yes if any
    /// client holds an inhibitor; otherwise the logind answer, asked again once it is
    /// `LOGIND_CACHE_MILLIS` old.
    pub fn is_inhibited(&self, now_millis: u64) -> (r: InhibitCheck)
        ensures
            self.entries().len() > 0 ==> r == InhibitCheck::Known(true),
            self.entries().len() == 0 ==> r == match self.logind_cache().1 {
                Some(t) if (if now_millis >= t { now_millis - t } else { 0 }) < LOGIND_CACHE_MILLIS => InhibitCheck::Known(self.logind_cache().0),
                _ => InhibitCheck::QueryLogind,
            },
    {
        if self.inhibitors.len() > 0 {
            return InhibitCheck::Known(true);
        }
        match self.logind_checked_at {
            Some(t) => {
                if now_millis.saturating_sub(t) < LOGIND_CACHE_MILLIS {
                    InhibitCheck::Known(self.logind_inhibited)
                } else {
                    InhibitCheck::QueryLogind
                }
            },
            None => InhibitCheck::QueryLogind,
        }
    }

    /// Cache logind's answer obtained at `now_millis`; returns it.
    pub fn record_logind(&mut self, inhibited: bool, now_millis: u64) -> (r: bool)
        ensures
            r == inhibited,
            final(self).logind_cache() == (inhibited, Some(now_millis)),
            final(self).entries() == old(self).entries(),
            final(self).spec_last_cookie() == old(self).spec_last_cookie(),
    {
        self.logind_inhibited = inhibited;
        self.logind_checked_at = Some(now_millis);
        inhibited
    }

    fn count_client(&self, client: &str) -> (n: usize)
        ensures
            n == count_for(self.entries(), client@),
    {
        let mut n: usize = 0;
        let mut i: usize = 0;
        assert(self.entries().take(0) =~= Seq::<InhibitorView>::empty());
        while i < self.inhibitors.len()
            invariant
                i <= self.inhibitors@.len(),
                n <= i,
                n == count_for(self.entries().take(i as int), client@),
            decreases self.inhibitors.len() - i,
        {
            assert(self.entries().take(i + 1).drop_last() =~= self.entries().take(i as int));
            if str_eq(self.inhibitors[i].client.as_str(), client) {
                n = n + 1;
            }
            i = i + 1;
        }
        assert(self.entries().take(i as int) =~= self.entries());
        n
    }

    /// Register an inhibitor for `client` under the next cookie; refused once the client
    /// holds `MAX_INHIBITORS_PER_CLIENT`. Cookies continue from the last one handed out
    /// and wrap around after `u32::MAX`.
    pub fn add(&mut self, application_name: String, reason: String, client: String) -> (r: Result<u32, InhibitError>)
        ensures
            count_for(old(self).entries(), client@) >= MAX_INHIBITORS_PER_CLIENT ==> {
                &&& r == Err::<u32, InhibitError>(InhibitError::TooManyForClient)
                &&& final(self).entries() == old(self).entries()
                &&& final(self).spec_last_cookie() == old(self).spec_last_cookie()
            },
            count_for(old(self).entries(), client@) < MAX_INHIBITORS_PER_CLIENT ==> {
                let cookie = old(self).spec_last_cookie().wrapping_add(1);
                &&& r == Ok::<u32, InhibitError>(cookie)
                &&& final(self).spec_last_cookie() == cookie
                &&& final(self).entries() == old(self).entries().push(
                    InhibitorView {
                        cookie,
                        application_name: application_name@,
                        reason: reason@,
                        client: client@,
                    },
                )
            },
            final(self).logind_cache() == old(self).logind_cache(),
    {
        if self.count_client(client.as_str()) >= MAX_INHIBITORS_PER_CLIENT {
            return Err(InhibitError::TooManyForClient);
        }
        let cookie = self.last_cookie.wrapping_add(1);
        self.last_cookie = cookie;
        let entry = Inhibitor { cookie, application_name, reason, client };
        let ghost before = self.inhibitors@;
        self.inhibitors.push(entry);
        assert(self.entries() =~= before.map_values(|e: Inhibitor| e@).push(entry@));
        Ok(cookie)
    }

    fn position(&self, cookie: u32, client: &str) -> (r: Option<usize>)
        ensures
            match r {
                Some(i) => first_match(self.entries(), cookie, client@) == Some(i as int),
                None => first_match(self.entries(), cookie, client@) is None,
            },
    {
        let mut i: usize = 0;
        while i < self.inhibitors.len()
            invariant
                i <= self.inhibitors@.len(),
                first_match(self.entries(), cookie, client@) == first_match_from(
                    self.entries(),
                    cookie,
                    client@,
                    i as int,
                ),
            decreases self.inhibitors.len() - i,
        {
            if self.inhibitors[i].cookie == cookie && str_eq(
                self.inhibitors[i].client.as_str(),
                client,
            ) {
                return Some(i);
            }
            i = i + 1;
        }
        None
    }

    /// Record an inhibitor seen on the bus under the cookie it was given, unless this
    /// client already holds that cookie.
    pub fn add_with_cookie(&mut self, application_name: String, reason: String, client: String, cookie: u32)
        ensures
            holds(old(self).entries(), cookie, client@) ==> final(self).entries() == old(self).entries(),
            !holds(old(self).entries(), cookie, client@) ==> final(self).entries() == old(self).entries().push(
                InhibitorView {
                    cookie,
                    application_name: application_name@,
                    reason: reason@,
                    client: client@,
                },
            ),
            final(self).spec_last_cookie() == old(self).spec_last_cookie(),
            final(self).logind_cache() == old(self).logind_cache(),
    {
        let found = self.position(cookie, client.as_str());
        proof {
            lemma_first_match(self.entries(), cookie, client@, 0);
        }
        if found.is_some() {
            return;
        }
        let entry = Inhibitor { cookie, application_name, reason, client };
        let ghost before = self.inhibitors@;
        self.inhibitors.push(entry);
        assert(self.entries() =~= before.map_values(|e: Inhibitor| e@).push(entry@));
    }

    /// Remove the first inhibitor with `cookie` held by `client`; returns whether there was one.
    pub fn remove_for_client(&mut self, cookie: u32, client: &str) -> (removed: bool)
        ensures
            removed == holds(old(self).entries(), cookie, client@),
            match first_match(old(self).entries(), cookie, client@) {
                Some(i) => final(self).entries() == old(self).entries().remove(i),
                None => final(self).entries() == old(self).entries(),
            },
            final(self).spec_last_cookie() == old(self).spec_last_cookie(),
            final(self).logind_cache() == old(self).logind_cache(),
    {
        let found = self.position(cookie, client);
        proof {
            lemma_first_match(self.entries(), cookie, client@, 0);
        }
        match found {
            Some(i) => {
                let ghost before = self.inhibitors@;
                self.inhibitors.remove(i);
                assert(self.entries() =~= before.map_values(|e: Inhibitor| e@).remove(i as int));
                true
            },
            None => false,
        }
    }

    /// Drop every inhibitor held by `client` (it left the bus).
    pub fn remove_client(&mut self, client: &str)
        ensures
            final(self).entries() == without_client(old(self).entries(), client@),
            final(self).spec_last_cookie() == old(self).spec_last_cookie(),
            final(self).logind_cache() == old(self).logind_cache(),
    {
        let ghost old_entries = self.entries();
        let mut kept: Vec<Inhibitor> = Vec::new();
        let mut i: usize = 0;
        assert(old_entries.take(0) =~= Seq::<InhibitorView>::empty());
        assert(kept@.map_values(|e: Inhibitor| e@) =~= Seq::<InhibitorView>::empty());
        while i < self.inhibitors.len()
            invariant
                i <= self.inhibitors@.len(),
                old_entries == self.entries(),
                kept@.map_values(|e: Inhibitor| e@) == without_client(
                    old_entries.take(i as int),
                    client@,
                ),
            decreases self.inhibitors.len() - i,
        {
            assert(old_entries.take(i + 1).drop_last() =~= old_entries.take(i as int));
            if !str_eq(self.inhibitors[i].client.as_str(), client) {
                let src = &self.inhibitors[i];
                let e = Inhibitor {
                    cookie: src.cookie,
                    application_name: src.application_name.clone(),
                    reason: src.reason.clone(),
                    client: src.client.clone(),
                };
                let ghost before = kept@;
                kept.push(e);
                assert(kept@.map_values(|e: Inhibitor| e@) =~= before.map_values(
                    |e: Inhibitor| e@,
                ).push(e@));
            }
            i = i + 1;
        }
        assert(old_entries.take(i as int) =~= old_entries);
        self.inhibitors = kept;
    }

    /// `(cookie, application, reason)` of each inhibitor, in order.
    pub fn list(&self) -> (r: Vec<(u32, String, String)>)
        ensures
            r@.len() == self.entries().len(),
            forall|i: int|
                0 <= i < r@.len() ==> (#[trigger] r@[i]).0 == self.entries()[i].cookie && r@[i].1@
                    == self.entries()[i].application_name && r@[i].2@ == self.entries()[i].reason,
    {
        let mut r: Vec<(u32, String, String)> = Vec::new();
        let mut i: usize = 0;
        while i < self.inhibitors.len()
            invariant
                i <= self.inhibitors@.len(),
                r@.len() == i,
                forall|k: int|
                    0 <= k < i ==> (#[trigger] r@[k]).0 == self.entries()[k].cookie && r@[k].1@
                        == self.entries()[k].application_name && r@[k].2@
                        == self.entries()[k].reason,
            decreases self.inhibitors.len() - i,
        {
            let e = &self.inhibitors[i];
            r.push((e.cookie, e.application_name.clone(), e.reason.clone()));
            i = i + 1;
        }
        r
    }
}

/// `first_match_from` finds the first matching entry at or after `i`, and finds
/// nothing exactly when no entry from `i` on matches.
pub proof fn lemma_first_match(s: Seq<InhibitorView>, cookie: u32, client: Seq<char>, i: int)
    requires
        0 <= i,
    ensures
        first_match_from(s, cookie, client, i) matches Some(k) ==> i <= k < s.len()
            && s[k].cookie == cookie && s[k].client == client,
        first_match_from(s, cookie, client, i) is None ==> forall|j: int|
            i <= j < s.len() ==> !(s[j].cookie == cookie && s[j].client == client),
    decreases s.len() - i,
{
    if i < s.len() {
        lemma_first_match(s, cookie, client, i + 1);
    }
}


/// An inhibitor added under a cookie its client does not already hold is the one that
/// `remove_for_client` with that cookie and client takes away, and removing it gives
/// back exactly the inhibitors there were before the add.
pub proof fn law_add_then_remove_restores(s: Seq<InhibitorView>, added: InhibitorView)
    requires
        !holds(s, added.cookie, added.client),
    ensures
        holds(s.push(added), added.cookie, added.client),
        first_match(s.push(added), added.cookie, added.client) == Some(s.len() as int),
        s.push(added).remove(s.len() as int) == s,
{
    let t = s.push(added);
    lemma_first_match(t, added.cookie, added.client, 0);
    assert(t[s.len() as int] == added);
    assert(t.remove(s.len() as int) =~= s);
    if first_match(t, added.cookie, added.client) != Some(s.len() as int) {
        match first_match(t, added.cookie, added.client) {
            Some(k) => {
                assert(k < s.len());
                assert(t[k] == s[k]);
            },
            None => {},
        }
    }
}

/// Recording an inhibitor seen on the bus twice is the same as recording it once.
pub proof fn law_add_with_cookie_idempotent(s: Seq<InhibitorView>, added: InhibitorView)
    ensures
        holds(s.push(added), added.cookie, added.client),
{
    assert(s.push(added)[s.len() as int] == added);
}

/// `count_for` after one more entry.
pub proof fn lemma_count_push(s: Seq<InhibitorView>, e: InhibitorView, client: Seq<char>)
    ensures
        count_for(s.push(e), client) == count_for(s, client) + if e.client == client {
            1nat
        } else {
            0nat
        },
{
    assert(s.push(e).drop_last() =~= s);
}

/// `add` keeps every client at or below `MAX_INHIBITORS_PER_CLIENT` inhibitors: an
/// accepted add grows only its own client's count, by one, from below the limit.
pub proof fn law_add_respects_client_limit(s: Seq<InhibitorView>, added: InhibitorView, other: Seq<char>)
    requires
        count_for(s, added.client) < MAX_INHIBITORS_PER_CLIENT,
    ensures
        count_for(s.push(added), added.client) <= MAX_INHIBITORS_PER_CLIENT,
        other != added.client ==> count_for(s.push(added), other) == count_for(s, other),
{
    lemma_count_push(s, added, added.client);
    lemma_count_push(s, added, other);
}

/// After a client leaves, none of its inhibitors remain and every other client keeps
/// all of its own.
pub proof fn law_remove_client_removes_only_that_client(s: Seq<InhibitorView>, client: Seq<char>, other: Seq<char>)
    requires
        other != client,
    ensures
        count_for(without_client(s, client), client) == 0,
        count_for(without_client(s, client), other) == count_for(s, other),
    decreases s.len(),
{
    if s.len() > 0 {
        law_remove_client_removes_only_that_client(s.drop_last(), client, other);
        let prev = without_client(s.drop_last(), client);
        if s.last().client != client {
            lemma_count_push(prev, s.last(), client);
            lemma_count_push(prev, s.last(), other);
        }
    }
}

} // verus!
