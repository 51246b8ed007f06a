//! What `trance self-update` reports once it knows the installed and available versions.

use vstd::prelude::*;

use crate::cli_config::arg_views;
use crate::self_update::{normalized_version, versions_equalish};
use crate::text::{cat, cat3, str_eq};

verus! {

broadcast use vstd::string::group_string_axioms;

/// The report for a DNF/RPM installation, from the installed version (`rpm -q`) and the
/// newest version in the repositories.
pub open spec fn dnf_report_lines(installed: Option<Seq<char>>, available: Option<Seq<char>>) -> Seq<Seq<char>> {
    match (installed, available) {
        (Some(inst), Some(cand)) => if normalized_version(inst) == normalized_version(cand) {
            seq![
                " [\u{2714}] Trance is already up to date (version "@ + inst + ")."@,
                "     -> Upgrade anytime with: sudo dnf update"@,
            ]
        } else {
            seq![
                " [!] A new version is available: "@ + inst + " \u{2192} "@ + cand,
                "     -> Run: sudo dnf update"@,
            ]
        },
        (Some(inst), None) => seq![
            " [\u{2714}] Installed version: "@ + inst,
            " [!] Could not query the latest package from the repo."@,
            "     -> Try: sudo dnf clean all && sudo dnf update"@,
            "     -> Confirm the crateria repo is in /etc/yum.repos.d/"@,
        ],
        (None, Some(cand)) => seq![
            " [!] Trance is not installed as an RPM (latest in repo: "@ + cand + ")."@,
            "     -> Install with: sudo dnf install trance"@,
        ],
        (None, None) => seq![
            " [!] Could not find the 'trance' package via RPM/DNF."@,
            "     -> Register the repo, then: sudo dnf install trance"@,
            "     -> curl -fsSL https://crateria.github.io/packages/rpm/crateria.repo \\"@,
            "          | sudo tee /etc/yum.repos.d/crateria.repo"@,
        ],
    }
}

pub open spec fn opt_text(o: Option<&str>) -> Option<Seq<char>> {
    match o {
        Some(s) => Some(s@),
        None => None,
    }
}

/// The lines reporting on a DNF/RPM installation.
pub fn dnf_report(installed: Option<&str>, available: Option<&str>) -> (r: Vec<String>)
    ensures
        arg_views(r@) == dnf_report_lines(opt_text(installed), opt_text(available)),
{
    let mut v: Vec<String> = Vec::new();
    match (installed, available) {
        (Some(inst), Some(cand)) => {
            if versions_equalish(inst, cand) {
                v.push(cat3(" [\u{2714}] Trance is already up to date (version ", inst, ")."));
                v.push("     -> Upgrade anytime with: sudo dnf update".to_string());
            } else {
                let head = cat3(" [!] A new version is available: ", inst, " \u{2192} ");
                v.push(cat(head.as_str(), cand));
                v.push("     -> Run: sudo dnf update".to_string());
            }
        },
        (Some(inst), None) => {
            v.push(cat(" [\u{2714}] Installed version: ", inst));
            v.push(" [!] Could not query the latest package from the repo.".to_string());
            v.push("     -> Try: sudo dnf clean all && sudo dnf update".to_string());
            v.push("     -> Confirm the crateria repo is in /etc/yum.repos.d/".to_string());
        },
        (None, Some(cand)) => {
            v.push(cat3(" [!] Trance is not installed as an RPM (latest in repo: ", cand, ")."));
            v.push("     -> Install with: sudo dnf install trance".to_string());
        },
        (None, None) => {
            v.push(" [!] Could not find the 'trance' package via RPM/DNF.".to_string());
            v.push("     -> Register the repo, then: sudo dnf install trance".to_string());
            v.push("     -> curl -fsSL https://crateria.github.io/packages/rpm/crateria.repo \\".to_string());
            v.push("          | sudo tee /etc/yum.repos.d/crateria.repo".to_string());
        },
    }
    assert(arg_views(v@) =~= dnf_report_lines(opt_text(installed), opt_text(available)));
    v
}

/// The report for an APT installation, from the `apt-cache policy` versions (installed,
/// candidate) and, when those could not be read, the version `dpkg-query` gives.
pub open spec fn apt_report_lines(policy: Option<(Seq<char>, Seq<char>)>, dpkg_version: Option<Seq<char>>) -> Seq<Seq<char>> {
    match policy {
        Some((inst, cand)) => if inst == "(none)"@ {
            seq![
                " [!] Trance is not installed as a DEB package."@,
                "     -> Install with: sudo apt install trance"@,
            ]
        } else if inst != cand {
            seq![
                " [!] A new version is available: "@ + inst + " \u{2192} "@ + cand,
                "     -> Run: sudo apt update && sudo apt upgrade"@,
            ]
        } else {
            seq![
                " [\u{2714}] Trance is already up to date (version "@ + inst + ")."@,
                "     -> Upgrade anytime with: sudo apt update && sudo apt upgrade"@,
            ]
        },
        None => match dpkg_version {
            Some(inst) => seq![
                " [\u{2714}] Installed version: "@ + inst,
                " [!] Could not read APT candidate (is the crateria repo configured?)."@,
                "     -> sudo apt update && sudo apt upgrade"@,
            ],
            None => seq![
                " [!] Could not determine package status for 'trance'."@,
                "     -> Ensure the crateria APT repo is registered, then:"@,
                "     -> sudo apt update && sudo apt install trance"@,
            ],
        },
    }
}

/// The lines reporting on an APT installation.
pub fn apt_report(policy: Option<(&str, &str)>, dpkg_version: Option<&str>) -> (r: Vec<String>)
    ensures
        arg_views(r@) == apt_report_lines(
            match policy {
                Some((i, c)) => Some((i@, c@)),
                None => None,
            },
            opt_text(dpkg_version),
        ),
{
    let mut v: Vec<String> = Vec::new();
    match policy {
        Some((inst, cand)) => {
            if str_eq(inst, "(none)") {
                v.push(" [!] Trance is not installed as a DEB package.".to_string());
                v.push("     -> Install with: sudo apt install trance".to_string());
            } else if !str_eq(inst, cand) {
                let head = cat3(" [!] A new version is available: ", inst, " \u{2192} ");
                v.push(cat(head.as_str(), cand));
                v.push("     -> Run: sudo apt update && sudo apt upgrade".to_string());
            } else {
                v.push(cat3(" [\u{2714}] Trance is already up to date (version ", inst, ")."));
                v.push("     -> Upgrade anytime with: sudo apt update && sudo apt upgrade".to_string());
            }
        },
        None => match dpkg_version {
            Some(inst) => {
                v.push(cat(" [\u{2714}] Installed version: ", inst));
                v.push(" [!] Could not read APT candidate (is the crateria repo configured?).".to_string());
                v.push("     -> sudo apt update && sudo apt upgrade".to_string());
            },
            None => {
                v.push(" [!] Could not determine package status for 'trance'.".to_string());
                v.push("     -> Ensure the crateria APT repo is registered, then:".to_string());
                v.push("     -> sudo apt update && sudo apt install trance".to_string());
            },
        },
    }
    assert(arg_views(v@) =~= apt_report_lines(
        match policy {
            Some((i, c)) => Some((i@, c@)),
            None => None,
        },
        opt_text(dpkg_version),
    ));
    v
}

/// The report when no supported package manager is found.
pub open spec fn no_backend_lines() -> Seq<Seq<char>> {
    seq![
        " [!] No supported package manager detected (need DNF/RPM or APT)."@,
        "     -> Fedora: sudo dnf update"@,
        "     -> Debian/Ubuntu: sudo apt update && sudo apt upgrade"@,
    ]
}

/// The lines reporting that no supported package manager was found.
pub fn no_backend_report() -> (r: Vec<String>)
    ensures
        arg_views(r@) == no_backend_lines(),
{
    let mut v: Vec<String> = Vec::new();
    v.push(" [!] No supported package manager detected (need DNF/RPM or APT).".to_string());
    v.push("     -> Fedora: sudo dnf update".to_string());
    v.push("     -> Debian/Ubuntu: sudo apt update && sudo apt upgrade".to_string());
    assert(arg_views(v@) =~= no_backend_lines());
    v
}

} // verus!
