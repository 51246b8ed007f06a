//! `trance self-update`: which package manager installed trance, and what the
//! installed and available package versions say.

use vstd::prelude::*;

use crate::text::{
    cat, cat3, contains, contains_str, ends_with, lines, split, split_char, split_ws, starts_with,
    starts_with_str, str_eq, strip_prefix_str, trim, trim_class, trim_end_matches_str,
    trim_end_str, trim_str, trim_ws, views, words, CharClass,
};

verus! {

broadcast use vstd::string::group_string_axioms;

/// The package manager that installed trance.
#[derive(Debug, Clone, Copy, PartialEq, Eq)]
pub enum Backend {
    Apt,
    Dnf,
}

/// Which section of `dnf list` output a line belongs to.
#[derive(Debug, Clone, Copy, PartialEq, Eq)]
pub enum DnfSection {
    Unknown,
    Installed,
    Available,
}

/// The state after one line of `dnf list` output: the section, and the last version
/// seen in the wanted section.
pub open spec fn dnf_line(state: (DnfSection, Option<Seq<char>>), raw: Seq<char>, want_available: bool) -> (DnfSection, Option<Seq<char>>) {
    let line = trim_ws(raw);
    let (section, last) = state;
    if contains(line, "Installed Packages"@) || line == "Installed packages"@ {
        (DnfSection::Installed, last)
    } else if contains(line, "Available Packages"@) || line == "Available packages"@ {
        (DnfSection::Available, last)
    } else if !(starts_with(line, "trance."@) || starts_with(line, "trance "@)) {
        state
    } else if words(line).len() < 2 {
        state
    } else if (want_available && (section == DnfSection::Available || section == DnfSection::Unknown))
        || (!want_available && section == DnfSection::Installed) {
        (section, Some(words(line)[1]))
    } else {
        state
    }
}

pub open spec fn dnf_lines(lines: Seq<Seq<char>>, want_available: bool) -> (DnfSection, Option<Seq<char>>)
    decreases lines.len(),
{
    if lines.len() == 0 {
        (DnfSection::Unknown, None)
    } else {
        dnf_line(dnf_lines(lines.drop_last(), want_available), lines.last(), want_available)
    }
}

/// The last version of package `trance` listed in the wanted section of `dnf list` output
/// (the available section, or lines before any section header, when `want_available`).
pub open spec fn dnf_list_version(text: Seq<char>, want_available: bool) -> Option<Seq<char>> {
    dnf_lines(split(text, '\n'), want_available).1
}

/// Parse `dnf list` lines like `trance.x86_64 0.3.33-1 crateria`.
pub fn parse_dnf_list_version(text: &str, want_available: bool) -> (r: Option<String>)
    ensures
        match r {
            Some(v) => dnf_list_version(text@, want_available) == Some(v@),
            None => dnf_list_version(text@, want_available) is None,
        },
{
    let lines = split_char(text, '\n');
    let mut section = DnfSection::Unknown;
    let mut last: Option<String> = None;
    let mut i: usize = 0;
    assert(views(lines@).take(0) =~= Seq::<Seq<char>>::empty());
    while i < lines.len()
        invariant
            i <= lines@.len(),
            views(lines@) == split(text@, '\n'),
            dnf_lines(views(lines@).take(i as int), want_available) == (section, match last {
                Some(v) => Some(v@),
                None => None,
            }),
        decreases lines.len() - i,
    {
        assert(views(lines@).take(i + 1).drop_last() =~= views(lines@).take(i as int));
        assert(views(lines@).take(i + 1).last() == lines@[i as int]@);
        let line = trim_str(lines[i]);
        if contains_str(line, "Installed Packages") || str_eq(line, "Installed packages") {
            section = DnfSection::Installed;
        } else if contains_str(line, "Available Packages") || str_eq(line, "Available packages") {
            section = DnfSection::Available;
        } else if starts_with_str(line, "trance.") || starts_with_str(line, "trance ") {
            let parts = split_ws(line);
            if parts.len() >= 2 {
                assert(views(parts@)[1] == parts@[1]@);
                let wanted = match section {
                    DnfSection::Available => want_available,
                    DnfSection::Unknown => want_available,
                    DnfSection::Installed => !want_available,
                };
                if wanted {
                    last = Some(parts[1].to_string());
                }
            }
        }
        i = i + 1;
    }
    assert(views(lines@).take(lines@.len() as int) =~= views(lines@));
    last
}

/// An RPM-style version with surrounding whitespace and any trailing `.x86_64`, then
/// `.noarch`, suffixes removed.
pub open spec fn normalized_version(s: Seq<char>) -> Seq<char> {
    trim_end_str(trim_end_str(trim_ws(s), ".x86_64"@), ".noarch"@)
}

/// Compare RPM-style `0.3.33-1` loosely (ignoring architecture suffixes).
pub fn versions_equalish(a: &str, b: &str) -> (r: bool)
    ensures
        r == (normalized_version(a@) == normalized_version(b@)),
{
    let na = trim_end_matches_str(trim_end_matches_str(trim_str(a), ".x86_64"), ".noarch");
    let nb = trim_end_matches_str(trim_end_matches_str(trim_str(b), ".x86_64"), ".noarch");
    str_eq(na, nb)
}

/// The state after one line of `apt-cache policy` output: the last `Installed:` and
/// `Candidate:` values seen.
pub open spec fn apt_line(state: (Option<Seq<char>>, Option<Seq<char>>), raw: Seq<char>) -> (Option<Seq<char>>, Option<Seq<char>>) {
    let line = trim_ws(raw);
    if starts_with(line, "Installed:"@) {
        (Some(trim_ws(line.subrange("Installed:"@.len() as int, line.len() as int))), state.1)
    } else if starts_with(line, "Candidate:"@) {
        (state.0, Some(trim_ws(line.subrange("Candidate:"@.len() as int, line.len() as int))))
    } else {
        state
    }
}

pub open spec fn apt_lines(lines: Seq<Seq<char>>) -> (Option<Seq<char>>, Option<Seq<char>>)
    decreases lines.len(),
{
    if lines.len() == 0 {
        (None, None)
    } else {
        apt_line(apt_lines(lines.drop_last()), lines.last())
    }
}

/// The installed and candidate versions of `apt-cache policy` output, when both appear.
pub open spec fn apt_policy(text: Seq<char>) -> Option<(Seq<char>, Seq<char>)> {
    match apt_lines(split(text, '\n')) {
        (Some(i), Some(c)) => Some((i, c)),
        _ => None,
    }
}

/// Read the installed and candidate versions from successful `apt-cache policy` output.
pub fn parse_apt_policy(text: &str) -> (r: Option<(String, String)>)
    ensures
        match r {
            Some((i, c)) => apt_policy(text@) == Some((i@, c@)),
            None => apt_policy(text@) is None,
        },
{
    let lines = split_char(text, '\n');
    let mut installed: Option<String> = None;
    let mut candidate: Option<String> = None;
    let mut i: usize = 0;
    assert(views(lines@).take(0) =~= Seq::<Seq<char>>::empty());
    while i < lines.len()
        invariant
            i <= lines@.len(),
            views(lines@) == split(text@, '\n'),
            apt_lines(views(lines@).take(i as int)) == (
                match installed {
                    Some(v) => Some(v@),
                    None => None,
                },
                match candidate {
                    Some(v) => Some(v@),
                    None => None,
                },
            ),
        decreases lines.len() - i,
    {
        assert(views(lines@).take(i + 1).drop_last() =~= views(lines@).take(i as int));
        assert(views(lines@).take(i + 1).last() == lines@[i as int]@);
        let line = trim_str(lines[i]);
        proof {
            reveal_strlit("Installed:");
            reveal_strlit("Candidate:");
        }
        if let Some(rest) = strip_prefix_str(line, "Installed:") {
            installed = Some(trim_str(rest).to_string());
        } else if let Some(rest) = strip_prefix_str(line, "Candidate:") {
            candidate = Some(trim_str(rest).to_string());
        }
        i = i + 1;
    }
    assert(views(lines@).take(lines@.len() as int) =~= views(lines@));
    match (installed, candidate) {
        (Some(a), Some(b)) => Some((a, b)),
        _ => None,
    }
}

/// What a command printed, as `stdout_trim` keeps it: the standard output of a command
/// that succeeded, trimmed, unless that leaves nothing.
pub open spec fn trimmed_output(stdout: Option<Seq<char>>) -> Option<Seq<char>> {
    match stdout {
        Some(t) => if trim_ws(t).len() == 0 {
            None
        } else {
            Some(trim_ws(t))
        },
        None => None,
    }
}

/// Keep the standard output of a command that succeeded (`None` when it failed or could
/// not run), trimmed, unless that leaves nothing.
pub fn trim_output(stdout: Option<&str>) -> (r: Option<String>)
    ensures
        match r {
            Some(t) => trimmed_output(match stdout { Some(s) => Some(s@), None => None }) == Some(t@),
            None => trimmed_output(match stdout { Some(s) => Some(s@), None => None }) is None,
        },
{
    match stdout {
        Some(s) => {
            let t = trim_str(s);
            if t.is_empty() {
                None
            } else {
                Some(t.to_string())
            }
        },
        None => None,
    }
}

/// What the machine says about how trance could have been installed.
#[derive(Debug, Clone)]
pub struct BackendProbes {
    /// `rpm -q trance` succeeded.
    pub rpm_has_package: bool,
    /// `dpkg-query -W -f=${Status} trance` succeeded.
    pub dpkg_query_ok: bool,
    /// `dpkg -s trance` succeeded.
    pub dpkg_status_ok: bool,
    /// The standard output of `dpkg-query -W -f=${Status} trance`, when it succeeded.
    pub dpkg_status: Option<String>,
    /// The contents of `/etc/os-release`, when it could be read.
    pub os_release: Option<String>,
    /// Which of `dnf`, `rpm`, `apt-cache`, `apt` are files in a `PATH` directory.
    pub has_dnf: bool,
    pub has_rpm: bool,
    pub has_apt_cache: bool,
    pub has_apt: bool,
}

/// After the first line at or after `i` that starts with `prefix`: the rest of it; empty
/// when there is none.
pub open spec fn value_after(lines: Seq<Seq<char>>, prefix: Seq<char>, i: int) -> Seq<char>
    decreases lines.len() - i,
{
    if i < 0 || i >= lines.len() {
        Seq::empty()
    } else if starts_with(lines[i], prefix) {
        lines[i].subrange(prefix.len() as int, lines[i].len() as int)
    } else {
        value_after(lines, prefix, i + 1)
    }
}

/// The value of an `os-release` field: after the first line starting with `prefix`,
/// without surrounding double quotes; empty when no line has it.
pub open spec fn os_field(os: Seq<char>, prefix: Seq<char>) -> Seq<char> {
    trim(value_after(lines(os), prefix, 0), CharClass::Only('"'))
}

fn field_value<'a>(lines: &Vec<&'a str>, prefix: &str) -> (r: &'a str)
    ensures
        r@ == value_after(views(lines@), prefix@, 0),
{
    let ghost v = views(lines@);
    let mut i: usize = 0;
    while i < lines.len()
        invariant
            i <= lines.len(),
            v == views(lines@),
            value_after(v, prefix@, 0) == value_after(v, prefix@, i as int),
        decreases lines.len() - i,
    {
        assert(v[i as int] == lines@[i as int]@);
        if let Some(rest) = strip_prefix_str(lines[i], prefix) {
            return rest;
        }
        i = i + 1;
    }
    proof {
        reveal_strlit("");
    }
    ""
}

/// Some word of `like` is one of `names`.
pub open spec fn names_any(like: Seq<char>, names: Seq<Seq<char>>) -> bool {
    exists|i: int, j: int| 0 <= i < words(like).len() && 0 <= j < names.len() && words(like)[i] == names[j]
}

fn any_word_in(like: &str, names: &Vec<&str>) -> (r: bool)
    ensures
        r == names_any(like@, views(names@)),
{
    let ws = split_ws(like);
    let ghost w = words(like@);
    let ghost n = views(names@);
    let mut i: usize = 0;
    while i < ws.len()
        invariant
            i <= ws.len(),
            views(ws@) == w,
            w == words(like@),
            n == views(names@),
            forall|a: int, b: int| 0 <= a < i && 0 <= b < n.len() ==> w[a] != n[b],
        decreases ws.len() - i,
    {
        let mut j: usize = 0;
        while j < names.len()
            invariant
                i < ws.len(),
                j <= names.len(),
                views(ws@) == w,
                w == words(like@),
                n == views(names@),
                forall|a: int, b: int| 0 <= a < i && 0 <= b < n.len() ==> w[a] != n[b],
                forall|b: int| 0 <= b < j ==> w[i as int] != n[b],
            decreases names.len() - j,
        {
            assert(w[i as int] == ws@[i as int]@);
            assert(n[j as int] == names@[j as int]@);
            if str_eq(ws[i], names[j]) {
                assert(w[i as int] == n[j as int]);
                assert(exists|a: int, b: int| 0 <= a < w.len() && 0 <= b < n.len() && w[a] == n[b]);
                return true;
            }
            j = j + 1;
        }
        i = i + 1;
    }
    false
}

pub open spec fn fedora_ids() -> Seq<Seq<char>> {
    seq!["fedora"@, "rhel"@, "centos"@, "rocky"@, "almalinux"@]
}

pub open spec fn fedora_likes() -> Seq<Seq<char>> {
    seq!["fedora"@, "rhel"@, "centos"@]
}

pub open spec fn debian_ids() -> Seq<Seq<char>> {
    seq!["debian"@, "ubuntu"@, "pop"@]
}

pub open spec fn debian_likes() -> Seq<Seq<char>> {
    seq!["debian"@, "ubuntu"@]
}

/// The package manager that installed trance: the one that owns the package (RPM first;
/// dpkg when its status says `install ok installed`, or cannot be read); else the one of
/// the OS family named in `os-release`, when on `PATH`; else `dnf`, then `apt-cache`, on
/// `PATH`.
pub open spec fn backend_for(p: BackendProbes) -> Option<Backend> {
    let status = trimmed_output(match p.dpkg_status { Some(s) => Some(s@), None => None });
    if p.rpm_has_package {
        Some(Backend::Dnf)
    } else if (p.dpkg_query_ok || p.dpkg_status_ok) && (match status {
        Some(st) => contains(st, "install ok installed"@),
        None => true,
    }) {
        Some(Backend::Apt)
    } else {
        let family = match p.os_release {
            Some(os) => {
                let id = os_field(os@, "ID="@);
                let like = os_field(os@, "ID_LIKE="@);
                if (fedora_ids().contains(id) || names_any(like, fedora_likes())) && (p.has_dnf || p.has_rpm) {
                    Some(Backend::Dnf)
                } else if (debian_ids().contains(id) || names_any(like, debian_likes())) && (p.has_apt_cache
                    || p.has_apt) {
                    Some(Backend::Apt)
                } else {
                    None
                }
            },
            None => None,
        };
        if family is Some {
            family
        } else if p.has_dnf {
            Some(Backend::Dnf)
        } else if p.has_apt_cache {
            Some(Backend::Apt)
        } else {
            None
        }
    }
}

fn one_of(s: &str, names: &Vec<&str>) -> (r: bool)
    ensures
        r == views(names@).contains(s@),
{
    let mut i: usize = 0;
    while i < names.len()
        invariant
            i <= names.len(),
            forall|j: int| 0 <= j < i ==> names@[j]@ != s@,
        decreases names.len() - i,
    {
        if str_eq(s, names[i]) {
            assert(views(names@)[i as int] == s@);
            return true;
        }
        i = i + 1;
    }
    assert forall|j: int| 0 <= j < views(names@).len() implies views(names@)[j] != s@ by {
        assert(views(names@)[j] == names@[j]@);
    }
    false
}

fn family_backend(os: &str, p: &BackendProbes) -> (r: Option<Backend>)
    ensures
        r == ({
            let id = os_field(os@, "ID="@);
            let like = os_field(os@, "ID_LIKE="@);
            if (fedora_ids().contains(id) || names_any(like, fedora_likes())) && (p.has_dnf || p.has_rpm) {
                Some(Backend::Dnf)
            } else if (debian_ids().contains(id) || names_any(like, debian_likes())) && (p.has_apt_cache
                || p.has_apt) {
                Some(Backend::Apt)
            } else {
                None
            }
        }),
{
    let ls = crate::text::lines_of(os);
    let id = trim_class(field_value(&ls, "ID="), CharClass::Only('"'));
    let like = trim_class(field_value(&ls, "ID_LIKE="), CharClass::Only('"'));
    let fedora_id = vec!["fedora", "rhel", "centos", "rocky", "almalinux"];
    let fedora_like = vec!["fedora", "rhel", "centos"];
    let debian_id = vec!["debian", "ubuntu", "pop"];
    let debian_like = vec!["debian", "ubuntu"];
    assert(views(fedora_id@) =~= fedora_ids());
    assert(views(fedora_like@) =~= fedora_likes());
    assert(views(debian_id@) =~= debian_ids());
    assert(views(debian_like@) =~= debian_likes());
    if (one_of(id, &fedora_id) || any_word_in(like, &fedora_like)) && (p.has_dnf || p.has_rpm) {
        Some(Backend::Dnf)
    } else if (one_of(id, &debian_id) || any_word_in(like, &debian_like)) && (p.has_apt_cache || p.has_apt) {
        Some(Backend::Apt)
    } else {
        None
    }
}

/// How trance was installed on this machine, from what the probes found.
pub fn detect_backend(p: &BackendProbes) -> (r: Option<Backend>)
    ensures
        r == backend_for(*p),
{
    if p.rpm_has_package {
        return Some(Backend::Dnf);
    }
    if p.dpkg_query_ok || p.dpkg_status_ok {
        let status = match &p.dpkg_status {
            Some(s) => trim_output(Some(s.as_str())),
            None => None,
        };
        match status {
            Some(st) => {
                if contains_str(st.as_str(), "install ok installed") {
                    return Some(Backend::Apt);
                }
            },
            None => {
                return Some(Backend::Apt);
            },
        }
    }
    let family = match &p.os_release {
        Some(os) => family_backend(os.as_str(), p),
        None => None,
    };
    if family.is_some() {
        family
    } else if p.has_dnf {
        Some(Backend::Dnf)
    } else if p.has_apt_cache {
        Some(Backend::Apt)
    } else {
        None
    }
}

} // verus!
