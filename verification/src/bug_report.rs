//! `trance bug-report`: the sanitized diagnostic report, from what the caller gathered.

use vstd::prelude::*;

use crate::self_update::{trim_output, trimmed_output};
use crate::text::{cat, cat3, replace_all, replaced, trim_str, trim_ws};

verus! {

broadcast use vstd::string::group_string_axioms;

/// The installed package as `rpm` or `dpkg-query` names it: `rpm <name-version>` from
/// the (trimmed, nonempty) output of a successful `rpm -q`, else `deb <name version>`
/// from that of `dpkg-query`.
pub open spec fn package_line(rpm: Option<Seq<char>>, dpkg: Option<Seq<char>>) -> Option<Seq<char>> {
    match trimmed_output(rpm) {
        Some(s) => Some("rpm "@ + s),
        None => match trimmed_output(dpkg) {
            Some(s) => Some("deb "@ + s),
            None => None,
        },
    }
}

pub open spec fn opt_seq(o: Option<&str>) -> Option<Seq<char>> {
    match o {
        Some(s) => Some(s@),
        None => None,
    }
}

/// The package line, from the standard output of `rpm -q` and of `dpkg-query -W`, each
/// when the command succeeded.
pub fn package_version_line(rpm: Option<&str>, dpkg: Option<&str>) -> (r: Option<String>)
    ensures
        match r {
            Some(l) => package_line(opt_seq(rpm), opt_seq(dpkg)) == Some(l@),
            None => package_line(opt_seq(rpm), opt_seq(dpkg)) is None,
        },
{
    match trim_output(rpm) {
        Some(s) => Some(cat("rpm ", s.as_str())),
        None => match trim_output(dpkg) {
            Some(s) => Some(cat("deb ", s.as_str())),
            None => None,
        },
    }
}

/// What became of the settings file.
#[derive(Debug, Clone)]
pub enum ConfigFileProbe {
    /// No configuration directory could be found.
    NoPath,
    /// The file does not exist.
    Missing,
    /// The file exists but could not be read.
    Unreadable,
    /// The file's contents.
    Contents(String),
}

/// What the report is made from.
#[derive(Debug, Clone)]
pub struct ReportFacts {
    pub wayland_display: Option<String>,
    pub runtime_dir: Option<String>,
    pub home: Option<String>,
    pub cli_version: String,
    /// The installed package line, when there is one.
    pub package: Option<String>,
    /// The standard output of `systemctl --user is-active trance-daemon`, when it ran.
    pub service_state: Option<String>,
    pub config: ConfigFileProbe,
    /// The standard output of `journalctl` for the daemon, when it ran.
    pub journal: Option<String>,
}

pub open spec fn or_text(o: Option<String>, fallback: Seq<char>) -> Seq<char> {
    match o {
        Some(s) => s@,
        None => fallback,
    }
}

/// The report: environment, service state, settings file and daemon log, with the home
/// directory written `~` in the file and the log.
pub open spec fn report_text(f: ReportFacts) -> Seq<char> {
    let home = or_text(f.home, "/home/user"@);
    "### Trance Diagnostics & Bug Report\n\n"@
        + "#### Environment Settings\n"@
        + "* **WAYLAND_DISPLAY**: `"@ + or_text(f.wayland_display, "not set"@) + "`\n"@
        + "* **XDG_RUNTIME_DIR**: `"@ + or_text(f.runtime_dir, "not set"@) + "`\n"@
        + "* **CLI version**: `"@ + f.cli_version@ + "`\n"@
        + (match f.package {
            Some(p) => "* **Package**: `"@ + p@ + "`\n"@,
            None => Seq::empty(),
        })
        + "\n"@
        + "#### Service Status\n"@
        + "* **Systemd User Service**: `"@ + (match f.service_state {
            Some(s) => trim_ws(s@),
            None => "unknown"@,
        }) + "`\n"@
        + "\n#### Configuration Settings\n"@
        + (match f.config {
            ConfigFileProbe::NoPath => Seq::empty(),
            ConfigFileProbe::Missing => "*No custom config file found. Using default values.*\n"@,
            ConfigFileProbe::Unreadable => "*Config file exists but is unreadable.*\n"@,
            ConfigFileProbe::Contents(c) => "```yaml\n"@ + replaced(c@, home, "~"@) + "\n```\n"@,
        })
        + "\n#### Daemon Log Output (systemd journalctl)\n"@
        + (match f.journal {
            Some(log) => if trim_ws(log@).len() == 0 {
                "*Journal log is empty.*\n"@
            } else {
                "```text\n"@ + replaced(log@, home, "~"@) + "\n```\n"@
            },
            None => "*Could not retrieve journal logs.*\n"@,
        })
}

fn or_str<'a>(o: &'a Option<String>, fallback: &'a str) -> (r: &'a str)
    ensures
        r@ == or_text(*o, fallback@),
{
    match o {
        Some(s) => s.as_str(),
        None => fallback,
    }
}

/// Assemble the bug report.
pub fn bug_report_text(f: &ReportFacts) -> (r: String)
    ensures
        r@ == report_text(*f),
{
    let home = or_str(&f.home, "/home/user");
    let mut t = "### Trance Diagnostics & Bug Report\n\n".to_string();
    t.append("#### Environment Settings\n");
    t.append("* **WAYLAND_DISPLAY**: `");
    t.append(or_str(&f.wayland_display, "not set"));
    t.append("`\n");
    t.append("* **XDG_RUNTIME_DIR**: `");
    t.append(or_str(&f.runtime_dir, "not set"));
    t.append("`\n");
    t.append("* **CLI version**: `");
    t.append(f.cli_version.as_str());
    t.append("`\n");
    let ghost before_package = t@;
    match &f.package {
        Some(p) => {
            t.append("* **Package**: `");
            t.append(p.as_str());
            t.append("`\n");
        },
        None => {},
    }
    assert(t@ =~= before_package + match f.package {
        Some(p) => "* **Package**: `"@ + p@ + "`\n"@,
        None => Seq::empty(),
    });
    t.append("\n");
    t.append("#### Service Status\n");
    t.append("* **Systemd User Service**: `");
    match &f.service_state {
        Some(s) => t.append(trim_str(s.as_str())),
        None => t.append("unknown"),
    }
    t.append("`\n");
    t.append("\n#### Configuration Settings\n");
    let ghost before_config = t@;
    match &f.config {
        ConfigFileProbe::NoPath => {},
        ConfigFileProbe::Missing => t.append("*No custom config file found. Using default values.*\n"),
        ConfigFileProbe::Unreadable => t.append("*Config file exists but is unreadable.*\n"),
        ConfigFileProbe::Contents(c) => {
            t.append("```yaml\n");
            let clean = replace_all(c.as_str(), home, "~");
            t.append(clean.as_str());
            t.append("\n```\n");
        },
    }
    assert(t@ =~= before_config + match f.config {
        ConfigFileProbe::NoPath => Seq::empty(),
        ConfigFileProbe::Missing => "*No custom config file found. Using default values.*\n"@,
        ConfigFileProbe::Unreadable => "*Config file exists but is unreadable.*\n"@,
        ConfigFileProbe::Contents(c) => "```yaml\n"@ + replaced(c@, home@, "~"@) + "\n```\n"@,
    });
    t.append("\n#### Daemon Log Output (systemd journalctl)\n");
    let ghost before_log = t@;
    match &f.journal {
        Some(log) => {
            if trim_str(log.as_str()).is_empty() {
                t.append("*Journal log is empty.*\n");
            } else {
                t.append("```text\n");
                let clean = replace_all(log.as_str(), home, "~");
                t.append(clean.as_str());
                t.append("\n```\n");
            }
        },
        None => t.append("*Could not retrieve journal logs.*\n"),
    }
    assert(t@ =~= before_log + match f.journal {
        Some(log) => if trim_ws(log@).len() == 0 {
            "*Journal log is empty.*\n"@
        } else {
            "```text\n"@ + replaced(log@, home@, "~"@) + "\n```\n"@
        },
        None => "*Could not retrieve journal logs.*\n"@,
    });
    assert(t@ =~= report_text(*f));
    t
}

/// The settings file and the log, as the report shows them, hold no trace of the home
/// directory (any nonempty one without a `~` in it).
pub proof fn law_report_hides_home(text: Seq<char>, home: Seq<char>)
    requires
        home.len() > 0,
        !home.contains('~'),
    ensures
        !crate::text::contains(replaced(text, home, "~"@), home),
{
    reveal_strlit("~");
    assert(crate::text::no_chars_of("~"@, home)) by {
        assert forall|k: int| 0 <= k < "~"@.len() implies !home.contains(#[trigger] "~"@[k]) by {
            assert("~"@[k] == '~');
        }
    }
    crate::text::law_replaced_leaves_no_pattern(text, home, "~"@);
}

} // verus!
