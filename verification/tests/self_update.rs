use trance::self_update::{detect_backend, parse_apt_policy, parse_dnf_list_version, trim_output, versions_equalish, Backend, BackendProbes};
use trance::update_report::{apt_report, dnf_report, no_backend_report};

#[test]
fn parse_dnf5_list_available() {
    let text = "\
Installed packages
trance.x86_64 0.3.32-1 crateria

Available packages
trance.x86_64 0.3.29-1 crateria
trance.x86_64 0.3.33-1 crateria
";
    assert_eq!(parse_dnf_list_version(text, true).as_deref(), Some("0.3.33-1"));
    assert_eq!(parse_dnf_list_version(text, false).as_deref(), Some("0.3.32-1"));
}

#[test]
fn versions_equalish_ignores_arch() {
    assert!(versions_equalish("0.3.33-1", "0.3.33-1"));
    assert!(versions_equalish("0.3.33-1.x86_64", "0.3.33-1"));
    assert!(!versions_equalish("0.3.32-1", "0.3.33-1"));
}

#[test]
fn dnf_list_without_sections_counts_as_available() {
    let text = "trance.noarch 1.0-1 repo\ntrance 1.1-2 repo\nother.x86_64 9.9 repo\n";
    assert_eq!(parse_dnf_list_version(text, true).as_deref(), Some("1.1-2"));
    assert_eq!(parse_dnf_list_version(text, false), None);
    assert_eq!(parse_dnf_list_version("", true), None);
}

#[test]
fn dnf5_headers_with_capitals_switch_sections() {
    let text = "Installed Packages\ntrance.x86_64 2.0-1 @repo\nAvailable Packages\ntrance.x86_64 2.1-1 repo\n";
    assert_eq!(parse_dnf_list_version(text, false).as_deref(), Some("2.0-1"));
    assert_eq!(parse_dnf_list_version(text, true).as_deref(), Some("2.1-1"));
}

#[test]
fn versions_equalish_trims_and_strips_noarch() {
    assert!(versions_equalish("  1.2-3.noarch \n", "1.2-3"));
    assert!(versions_equalish("1.2-3.x86_64.x86_64", "1.2-3"));
    assert!(!versions_equalish("1.2-3.noarch.x86_64", "1.2-3.x86"));
}

#[test]
fn apt_policy_reads_installed_and_candidate() {
    let text = "trance:\n  Installed: 0.3.30-1\n  Candidate: 0.3.33-1\n  Version table:\n";
    assert_eq!(
        parse_apt_policy(text),
        Some(("0.3.30-1".to_string(), "0.3.33-1".to_string()))
    );
    assert_eq!(parse_apt_policy("trance:\n  Installed: (none)\n"), None);
}

#[test]
fn trim_output_drops_blank_output() {
    assert_eq!(trim_output(Some("  0.3.33-1\n")), Some("0.3.33-1".to_string()));
    assert_eq!(trim_output(Some(" \n\t")), None);
    assert_eq!(trim_output(None), None);
}

fn probes() -> BackendProbes {
    BackendProbes {
        rpm_has_package: false,
        dpkg_query_ok: false,
        dpkg_status_ok: false,
        dpkg_status: None,
        os_release: None,
        has_dnf: false,
        has_rpm: false,
        has_apt_cache: false,
        has_apt: false,
    }
}

#[test]
fn rpm_ownership_wins() {
    let mut p = probes();
    p.rpm_has_package = true;
    p.dpkg_query_ok = true;
    p.has_apt_cache = true;
    assert_eq!(detect_backend(&p), Some(Backend::Dnf));
}

#[test]
fn dpkg_status_must_say_installed() {
    let mut p = probes();
    p.dpkg_query_ok = true;
    p.dpkg_status = Some("install ok installed\n".to_string());
    assert_eq!(detect_backend(&p), Some(Backend::Apt));
    p.dpkg_status = Some("deinstall ok config-files".to_string());
    assert_eq!(detect_backend(&p), None);
    p.dpkg_status = Some("   ".to_string());
    assert_eq!(detect_backend(&p), Some(Backend::Apt));
}

#[test]
fn os_release_family_decides_before_path() {
    let mut p = probes();
    p.os_release = Some("NAME=\"Fedora Linux\"\nID=fedora\nVERSION_ID=40\n".to_string());
    p.has_rpm = true;
    p.has_apt_cache = true;
    assert_eq!(detect_backend(&p), Some(Backend::Dnf));

    let mut q = probes();
    q.os_release = Some("ID=linuxmint\nID_LIKE=\"ubuntu debian\"\n".to_string());
    q.has_apt = true;
    q.has_dnf = true;
    assert_eq!(detect_backend(&q), Some(Backend::Apt));
}

#[test]
fn path_fallback_prefers_dnf() {
    let mut p = probes();
    p.os_release = Some("ID=arch\n".to_string());
    p.has_dnf = true;
    p.has_apt_cache = true;
    assert_eq!(detect_backend(&p), Some(Backend::Dnf));
    p.has_dnf = false;
    assert_eq!(detect_backend(&p), Some(Backend::Apt));
    p.has_apt_cache = false;
    assert_eq!(detect_backend(&p), None);
}

#[test]
fn dnf_report_cases() {
    assert_eq!(
        dnf_report(Some("0.3.33-1.x86_64"), Some("0.3.33-1")),
        vec![
            " [\u{2714}] Trance is already up to date (version 0.3.33-1.x86_64).".to_string(),
            "     -> Upgrade anytime with: sudo dnf update".to_string(),
        ]
    );
    assert_eq!(
        dnf_report(Some("0.3.32-1"), Some("0.3.33-1"))[0],
        " [!] A new version is available: 0.3.32-1 \u{2192} 0.3.33-1"
    );
    assert_eq!(dnf_report(Some("1"), None).len(), 4);
    assert_eq!(
        dnf_report(None, Some("0.3.33-1"))[0],
        " [!] Trance is not installed as an RPM (latest in repo: 0.3.33-1)."
    );
    assert_eq!(dnf_report(None, None)[0], " [!] Could not find the 'trance' package via RPM/DNF.");
}

#[test]
fn apt_report_cases() {
    assert_eq!(apt_report(Some(("(none)", "1.0")), None)[0], " [!] Trance is not installed as a DEB package.");
    assert_eq!(apt_report(Some(("0.9", "1.0")), None)[0], " [!] A new version is available: 0.9 \u{2192} 1.0");
    assert_eq!(apt_report(Some(("1.0", "1.0")), None)[0], " [\u{2714}] Trance is already up to date (version 1.0).");
    assert_eq!(apt_report(None, Some("1.0"))[0], " [\u{2714}] Installed version: 1.0");
    assert_eq!(apt_report(None, None)[0], " [!] Could not determine package status for 'trance'.");
    assert_eq!(no_backend_report().len(), 3);
}
