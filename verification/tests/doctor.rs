use trance::bug_report::{bug_report_text, package_version_line, ConfigFileProbe, ReportFacts};
use trance::doctor::{
    check_dbus, check_protocol_hints, check_running_pid, check_systemd_service, check_wayland, chk, doctor_verdict, fix_line,
    format_check_line, parse_pid, results_json, results_report, DbusProbe, FixStep, PidFileProbe,
};

#[test]
fn environment_checks() {
    let w = check_wayland(Some("wayland-1"));
    assert!(w.passed);
    assert_eq!(w.detail, "WAYLAND_DISPLAY=wayland-1");
    assert!(!check_wayland(Some("")).passed);
    assert!(!check_wayland(None).passed);
    let p = check_protocol_hints("COSMIC", true);
    assert!(p.passed);
    assert_eq!(p.detail, "WAYLAND_DISPLAY set; DE='COSMIC' (need idle-notify + layer-shell)");
    let q = check_protocol_hints("GNOME", true);
    assert!(q.passed);
    assert!(q.detail.contains("may lack layer-shell/idle-notify"));
    assert_eq!(check_protocol_hints("", true).detail, "WAYLAND_DISPLAY set; DE='unknown' (need idle-notify + layer-shell)");
    assert!(!check_protocol_hints("sway", false).passed);
}

#[test]
fn service_and_process_checks() {
    let s = check_systemd_service(Ok("active\n"));
    assert!(s.passed);
    assert_eq!(s.detail, "active");
    let f = check_systemd_service(Ok("inactive"));
    assert!(!f.passed);
    assert_eq!(f.detail, "status 'inactive'; run systemctl --user start trance-daemon");
    assert!(!check_systemd_service(Err("not found")).passed);
    assert_eq!(parse_pid(" 42\n"), Some(42));
    assert_eq!(parse_pid("x"), None);
    assert_eq!(check_running_pid(PidFileProbe::Pid { pid: 42, alive: true }, false).detail, "PID 42 running");
    let stale = check_running_pid(PidFileProbe::Pid { pid: 42, alive: false }, true);
    assert!(!stale.passed);
    assert_eq!(stale.detail, "stale PID 42");
    assert!(check_running_pid(PidFileProbe::Unreadable, false).passed);
    assert!(check_running_pid(PidFileProbe::Missing, true).passed);
    assert!(!check_running_pid(PidFileProbe::Missing, false).passed);
}

#[test]
fn dbus_check_and_report() {
    let d = check_dbus(&DbusProbe::Status { idle_enabled: true, idle_timeout_mins: 10, active_saver: "beams".into() });
    assert!(d.passed);
    assert_eq!(d.detail, "connected idle_enabled=true timeout=10m saver='beams'");
    assert_eq!(check_dbus(&DbusProbe::StatusError("boom".into())).detail, "GetStatus error: boom");
    assert!(!check_dbus(&DbusProbe::Unreachable).passed);
    let ok = chk("A", true, "fine".to_string());
    let bad = chk("B", false, "broken".to_string());
    assert_eq!(format_check_line(&ok), "  [\u{2713}] A: fine");
    assert_eq!(format_check_line(&bad), "  [\u{2717}] B: broken");
    let all = vec![ok.clone(), bad.clone()];
    let lines = results_report(&all);
    assert_eq!(lines.len(), 6);
    assert_eq!(lines[4], "Diagnostics complete: PROBLEMS DETECTED.");
    let v = doctor_verdict(&all, false);
    assert!(v.failed && v.hint_fix);
    let w = doctor_verdict(&vec![ok.clone()], false);
    assert!(!w.failed && !w.hint_fix);
    assert_eq!(results_report(&vec![ok])[3], "Diagnostics complete: ALL SYSTEMS NOMINAL.");
    assert!(!doctor_verdict(&all, true).hint_fix);
    assert_eq!(fix_line(FixStep::Reload, true), "  \u{2713} systemctl --user daemon-reload");
    assert_eq!(fix_line(FixStep::EnableNow, false), "  ! enable --now failed; attempting restart...");
}

#[test]
fn bug_report_is_sanitized() {
    assert_eq!(package_version_line(Some(" trance-1.0-1.x86_64\n"), Some("trance 1.0")).as_deref(), Some("rpm trance-1.0-1.x86_64"));
    assert_eq!(package_version_line(Some(""), Some("trance 1.0\n")).as_deref(), Some("deb trance 1.0"));
    assert_eq!(package_version_line(None, None), None);
    let facts = ReportFacts {
        wayland_display: Some("wayland-0".into()),
        runtime_dir: None,
        home: Some("/home/ann".into()),
        cli_version: "0.3.33".into(),
        package: None,
        service_state: Some("active\n".into()),
        config: ConfigFileProbe::Contents("path: /home/ann/x\n".into()),
        journal: Some("started from /home/ann/bin\n/home/ann".into()),
    };
    let t = bug_report_text(&facts);
    assert!(t.starts_with("### Trance Diagnostics & Bug Report\n\n#### Environment Settings\n"));
    assert!(t.contains("* **WAYLAND_DISPLAY**: `wayland-0`\n"));
    assert!(t.contains("* **XDG_RUNTIME_DIR**: `not set`\n"));
    assert!(t.contains("* **Systemd User Service**: `active`\n"));
    assert!(t.contains("```yaml\npath: ~/x\n\n```\n"));
    assert!(t.contains("```text\nstarted from ~/bin\n~\n```\n"));
    assert!(!t.contains("/home/ann"));
    let quiet = ReportFacts { journal: Some("  \n".into()), config: ConfigFileProbe::Missing, service_state: None, ..facts.clone() };
    let u = bug_report_text(&quiet);
    assert!(u.contains("*Journal log is empty.*\n"));
    assert!(u.contains("*No custom config file found. Using default values.*\n"));
    assert!(u.contains("`unknown`"));
}

#[test]
fn results_as_json() {
    assert_eq!(results_json(&vec![]), "[]");
    let rs = vec![
        chk("Wayland", true, "WAYLAND_DISPLAY=wayland-1".to_string()),
        chk("D-Bus", false, "say \"hi\"\\path\n\tend\u{1}".to_string()),
    ];
    assert_eq!(
        results_json(&rs),
        "[{\"name\":\"Wayland\",\"passed\":true,\"detail\":\"WAYLAND_DISPLAY=wayland-1\"},\
{\"name\":\"D-Bus\",\"passed\":false,\"detail\":\"say \\\"hi\\\"\\\\path\\n\\tend\\u0001\"}]"
    );
}
