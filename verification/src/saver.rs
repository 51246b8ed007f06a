//! The screensaver catalog (the allowlist and which savers are installed) and the
//! choice of the saver an idle start shows.

use vstd::prelude::*;

use crate::config::DaemonConfig;
use crate::text::{str_eq, strip_prefix_str};

verus! {

broadcast use vstd::string::group_string_axioms;

/// Names of savers the daemon may run, and the ones whose binaries are present.
#[derive(Debug, Clone)]
pub struct SaverCatalog {
    /// Allowlisted saver names; only these ever resolve to a binary.
    pub allowed: Vec<String>,
    /// Allowlisted savers whose binary resolves on this machine.
    pub installed: Vec<String>,
}

/// Whether `names` holds a string whose characters are `name`.
pub open spec fn names_contain(names: Seq<String>, name: Seq<char>) -> bool {
    exists|i: int| 0 <= i < names.len() && #[trigger] names[i]@ == name
}

/// Whether `names` holds `name`.
pub fn list_contains(names: &Vec<String>, name: &str) -> (r: bool)
    ensures
        r == names_contain(names@, name@),
{
    let mut i: usize = 0;
    while i < names.len()
        invariant
            i <= names@.len(),
            forall|j: int| 0 <= j < i ==> #[trigger] names@[j]@ != name@,
        decreases names.len() - i,
    {
        if str_eq(names[i].as_str(), name) {
            return true;
        }
        i = i + 1;
    }
    false
}

impl SaverCatalog {
    /// The saver is on the allowlist.
    pub open spec fn allows(&self, name: Seq<char>) -> bool {
        names_contain(self.allowed@, name)
    }

    /// The saver's binary resolves.
    pub open spec fn has_installed(&self, name: Seq<char>) -> bool {
        names_contain(self.installed@, name)
    }

    /// Whether `name` is an allowlisted saver.
    pub fn is_allowed_saver(&self, name: &str) -> (r: bool)
        ensures
            r == self.allows(name@),
    {
        list_contains(&self.allowed, name)
    }

    /// Whether `name`'s binary resolves.
    pub fn is_installed(&self, name: &str) -> (r: bool)
        ensures
            r == self.has_installed(name@),
    {
        list_contains(&self.installed, name)
    }

    /// The allowlisted savers that are installed, in allowlist order (`installed_savers`).
    pub fn installed_savers(&self) -> (r: Vec<String>)
        ensures
            name_views(r@) == installed_in_order(self.allowed@, self.installed@),
    {
        let mut r: Vec<String> = Vec::new();
        let mut i: usize = 0;
        assert(self.allowed@.take(0) =~= Seq::<String>::empty());
        while i < self.allowed.len()
            invariant
                i <= self.allowed@.len(),
                name_views(r@) == installed_in_order(self.allowed@.take(i as int), self.installed@),
            decreases self.allowed.len() - i,
        {
            let name = &self.allowed[i];
            let ghost before = r@;
            assert(self.allowed@.take(i + 1).drop_last() =~= self.allowed@.take(i as int));
            assert(self.allowed@.take(i + 1).last() == self.allowed@[i as int]);
            if self.is_installed(name.as_str()) {
                r.push(name.clone());
                assert(name_views(r@) =~= name_views(before).push(self.allowed@[i as int]@));
            }
            i = i + 1;
        }
        assert(self.allowed@.take(self.allowed@.len() as int) =~= self.allowed@);
        r
    }
}

pub open spec fn name_views(v: Seq<String>) -> Seq<Seq<char>> {
    v.map_values(|s: String| s@)
}

/// The allowlisted names whose binary is present, in allowlist order.
pub open spec fn installed_in_order(allowed: Seq<String>, installed: Seq<String>) -> Seq<Seq<char>>
    decreases allowed.len(),
{
    if allowed.len() == 0 {
        Seq::empty()
    } else {
        let prev = installed_in_order(allowed.drop_last(), installed);
        if names_contain(installed, allowed.last()@) {
            prev.push(allowed.last()@)
        } else {
            prev
        }
    }
}

/// The savers the daemon may run: the official plugins.
pub open spec fn official_savers() -> Seq<Seq<char>> {
    seq!["beams"@, "bursts"@, "chaos"@, "cosmos"@, "glyphs"@, "gnats"@, "storm"@]
}

/// The official savers, in order.
pub fn official_saver_names() -> (r: Vec<String>)
    ensures
        name_views(r@) == official_savers(),
{
    let mut r: Vec<String> = Vec::new();
    r.push("beams".to_string());
    r.push("bursts".to_string());
    r.push("chaos".to_string());
    r.push("cosmos".to_string());
    r.push("glyphs".to_string());
    r.push("gnats".to_string());
    r.push("storm".to_string());
    assert(name_views(r@) =~= official_savers());
    r
}

/// A plugin file stem provides the saver `name`: it is the name, or `lib` and the name.
pub open spec fn stem_provides(stem: Seq<char>, name: Seq<char>) -> bool {
    stem == name || stem == "lib"@ + name
}

/// Some of the plugin file stems provides `name`.
pub open spec fn stems_provide(stems: Seq<String>, name: Seq<char>) -> bool {
    exists|i: int| 0 <= i < stems.len() && stem_provides(#[trigger] stems[i]@, name)
}

/// The names that some stem provides, in the order of `names`.
pub open spec fn provided_in_order(names: Seq<Seq<char>>, stems: Seq<String>) -> Seq<Seq<char>>
    decreases names.len(),
{
    if names.len() == 0 {
        Seq::empty()
    } else {
        let prev = provided_in_order(names.drop_last(), stems);
        if stems_provide(stems, names.last()) {
            prev.push(names.last())
        } else {
            prev
        }
    }
}

fn provides(stem: &str, name: &str) -> (r: bool)
    ensures
        r == stem_provides(stem@, name@),
{
    proof {
        reveal_strlit("lib");
    }
    if str_eq(stem, name) {
        return true;
    }
    match strip_prefix_str(stem, "lib") {
        Some(rest) => {
            let b = str_eq(rest, name);
            assert(stem@ =~= "lib"@ + stem@.subrange(3, stem@.len() as int));
            assert(b ==> stem@ =~= "lib"@ + name@);
            assert(stem@ == "lib"@ + name@ ==> (stem@.subrange(3, stem@.len() as int) =~= name@));
            b
        },
        None => {
            assert(stem@ == "lib"@ + name@ ==> stem@.subrange(0, 3) =~= "lib"@);
            false
        },
    }
}

fn any_provides(stems: &Vec<String>, name: &str) -> (r: bool)
    ensures
        r == stems_provide(stems@, name@),
{
    let mut i: usize = 0;
    while i < stems.len()
        invariant
            i <= stems@.len(),
            forall|j: int| 0 <= j < i ==> !stem_provides(#[trigger] stems@[j]@, name@),
        decreases stems.len() - i,
    {
        if provides(stems[i].as_str(), name) {
            return true;
        }
        i = i + 1;
    }
    false
}

impl SaverCatalog {
    /// The catalog of the official savers, given the stems of the files in the plugin
    /// directory: a saver is installed when a file named after it, or after it with a
    /// `lib` prefix, is there.
    pub fn from_plugin_files(stems: &Vec<String>) -> (c: SaverCatalog)
        ensures
            name_views(c.allowed@) == official_savers(),
            name_views(c.installed@) == provided_in_order(official_savers(), stems@),
    {
        let allowed = official_saver_names();
        let mut installed: Vec<String> = Vec::new();
        let mut i: usize = 0;
        assert(name_views(allowed@).take(0) =~= Seq::<Seq<char>>::empty());
        while i < allowed.len()
            invariant
                i <= allowed@.len(),
                name_views(allowed@) == official_savers(),
                name_views(installed@) == provided_in_order(name_views(allowed@).take(i as int), stems@),
            decreases allowed.len() - i,
        {
            let ghost names = name_views(allowed@);
            assert(names.take(i + 1).drop_last() =~= names.take(i as int));
            assert(names.take(i + 1).last() == allowed@[i as int]@);
            if any_provides(stems, allowed[i].as_str()) {
                let ghost before = installed@;
                installed.push(allowed[i].clone());
                assert(name_views(installed@) =~= name_views(before).push(allowed@[i as int]@));
            }
            i = i + 1;
        }
        assert(name_views(allowed@).take(allowed@.len() as int) =~= name_views(allowed@));
        SaverCatalog { allowed, installed }
    }
}

/// One step of the 64-bit linear congruential generator that picks a random saver.
#[verifier::opaque]
pub open spec fn lcg(seed: u64) -> u64 {
    seed.wrapping_mul(6364136223846793005).wrapping_add(1442695040888963407)
}

/// The saver an idle start shows: the configured saver when it is allowlisted, otherwise
/// the allowlisted saver at index `lcg(seed) % n` of the `n` allowlisted savers.
pub open spec fn picked_saver(active: Option<Seq<char>>, catalog: SaverCatalog, seed: u64) -> Seq<char> {
    if active is Some && catalog.allows(active->0) {
        active->0
    } else {
        catalog.allowed@[(lcg(seed) % (catalog.allowed@.len() as u64)) as int]@
    }
}

/// Pick the saver for an idle start, seeded by the clock in microseconds.
pub fn pick_saver_name(config: &DaemonConfig, catalog: &SaverCatalog, seed_micros: u64) -> (r: String)
    requires
        catalog.allowed@.len() > 0,
    ensures
        r@ == picked_saver(config@.active_saver, *catalog, seed_micros),
{
    if let Some(active) = &config.active_saver {
        if catalog.is_allowed_saver(active.as_str()) {
            return active.clone();
        }
    }
    let seed = seed_micros.wrapping_mul(6364136223846793005).wrapping_add(1442695040888963407);
    proof {
        reveal(lcg);
    }
    let index = (seed % (catalog.allowed.len() as u64)) as usize;
    catalog.allowed[index].clone()
}

/// An idle start only ever shows an allowlisted saver. (The allowlist is a `Vec`, so it
/// holds at most `usize::MAX` names.)
pub proof fn law_picked_saver_is_allowlisted(active: Option<Seq<char>>, catalog: SaverCatalog, seed: u64)
    requires
        0 < catalog.allowed@.len() <= usize::MAX,
    ensures
        catalog.allows(picked_saver(active, catalog, seed)),
{
    if !(active is Some && catalog.allows(active->0)) {
        let n = catalog.allowed@.len() as u64;
        let x = lcg(seed);
        assert(n > 0 && n as nat == catalog.allowed@.len());
        assert(x % n < n) by (nonlinear_arith)
            requires
                n > 0,
        ;
        let i = (x % n) as int;
        assert(catalog.allowed@[i]@ == picked_saver(active, catalog, seed));
    }
}

} // verus!
