use trance::clock::{current_time_micros, micros_or_zero};
use trance::config::{parse_config_entries, ConfigEntry, DaemonConfig};
use trance::daemon_args::{daemon_help, daemon_mode, DaemonMode};
use trance::idle_loop::{idle_loop_step, launch_choice, logind_timed_out, LoopAction, LoopTick};
use trance::failsafe::{attempt_report, lock_banner, locker_args, locker_user, password_from_line, password_prompt, pick_terminal, watchdog_needs_locker};
use trance::logind::{idle_status_from, inhibitors_block_idle, logind_object_path, parse_busctl_property, query_logind_idle, BoolOrU64, IdleStatus};
use trance::paths::{event_reloads_settings, ipc_endpoint_names, join_path, pid_file_path, settings_file_path};
use trance::saver::{pick_saver_name, SaverCatalog};
use trance::startup::{pid_in_file, run_daemon, startup_message, DaemonStartup};
use trance::status::{reload_due, DaemonStatus, LiveState};

fn strings(a: &[&str]) -> Vec<String> {
    a.iter().map(|s| s.to_string()).collect()
}

fn catalog() -> SaverCatalog {
    SaverCatalog {
        allowed: strings(&["beams", "bursts", "chaos", "cosmos", "glyphs", "gnats", "storm"]),
        installed: strings(&["beams", "storm"]),
    }
}

#[test]
fn startup_decisions() {
    assert_eq!(run_daemon(false, Some(42), true, 7), DaemonStartup::MissingWayland);
    assert_eq!(run_daemon(true, Some(42), true, 7), DaemonStartup::AlreadyRunning(42));
    assert_eq!(run_daemon(true, Some(7), true, 7), DaemonStartup::Proceed);
    assert_eq!(run_daemon(true, Some(42), false, 7), DaemonStartup::Proceed);
    assert_eq!(run_daemon(true, None, true, 7), DaemonStartup::Proceed);
    assert_eq!(
        startup_message(DaemonStartup::AlreadyRunning(-3)),
        "trance-daemon is already running (pid -3). Exiting."
    );
    assert_eq!(
        startup_message(DaemonStartup::MissingWayland),
        "WAYLAND_DISPLAY is not set; trance requires a Wayland session"
    );
    assert_eq!(pid_in_file(" 1234\n"), Some(1234));
    assert_eq!(pid_in_file("abc"), None);
    assert_eq!(pid_in_file("-17"), Some(-17));
    assert_eq!(pid_in_file("99999999999"), None);
}

#[test]
fn daemon_argument_modes() {
    assert_eq!(daemon_mode(&strings(&["trance-daemon"])), DaemonMode::Daemon);
    assert_eq!(daemon_mode(&strings(&["trance-daemon", "--daemon"])), DaemonMode::Daemon);
    assert_eq!(daemon_mode(&strings(&["trance-daemon", "-h"])), DaemonMode::Help);
    assert_eq!(
        daemon_mode(&strings(&["trance-daemon", "run-plugin"])),
        DaemonMode::Fail("error: missing saver name.\nusage: trance-daemon run-plugin <saver>".to_string())
    );
    assert_eq!(
        daemon_mode(&strings(&["trance-daemon", "run-plugin", "../x"])),
        DaemonMode::Fail("error: saver name must not be a path".to_string())
    );
    assert_eq!(
        daemon_mode(&strings(&["trance-daemon", "run-plugin", "a\\b"])),
        DaemonMode::Fail("error: saver name must not be a path".to_string())
    );
    assert_eq!(daemon_mode(&strings(&["trance-daemon", "run-plugin", "beams"])), DaemonMode::RunPlugin("beams".to_string()));
    assert_eq!(
        daemon_mode(&strings(&["trance-daemon", "zap"])),
        DaemonMode::Fail("unknown argument: zap\ntry --help".to_string())
    );
    assert!(daemon_help().starts_with("trance-daemon \u{2014} background"));
}

#[test]
fn paths_join_like_path_join() {
    assert_eq!(join_path("/run/user/1000", "trance-daemon.pid"), "/run/user/1000/trance-daemon.pid");
    assert_eq!(join_path("/tmp/", "x"), "/tmp/x");
    assert_eq!(join_path("", "x"), "x");
    assert_eq!(pid_file_path(Some("/run/user/5"), "/tmp"), "/run/user/5/trance-daemon.pid");
    assert_eq!(pid_file_path(None, "/tmp"), "/tmp/trance-daemon.pid");
    assert_eq!(
        settings_file_path(Some("/c"), Some("/h"), "trance", "config.yaml").as_deref(),
        Some("/c/trance/config.yaml")
    );
    assert_eq!(
        settings_file_path(Some(""), Some("/home/u"), "local76", "theme.yaml").as_deref(),
        Some("/home/u/.config/local76/theme.yaml")
    );
    assert_eq!(settings_file_path(None, None, "trance", "config.yaml"), None);
    assert_eq!(
        ipc_endpoint_names("/tmp", 42, 3),
        ("/tmp/trance-uds-42-3.sock".to_string(), "/trance-shm-42-3".to_string())
    );
    assert!(event_reloads_settings(true, &strings(&["/a", "/c/trance/config.yaml"]), "/c/trance/config.yaml"));
    assert!(!event_reloads_settings(false, &strings(&["/c/trance/config.yaml"]), "/c/trance/config.yaml"));
    assert!(!event_reloads_settings(true, &strings(&["/c/trance/other"]), "/c/trance/config.yaml"));
}

#[test]
fn logind_readings() {
    assert_eq!(parse_busctl_property("b true\n"), Some(BoolOrU64::Bool(true)));
    assert_eq!(parse_busctl_property("b no"), Some(BoolOrU64::Bool(false)));
    assert_eq!(parse_busctl_property("t 1700000000000000"), Some(BoolOrU64::U64(1700000000000000)));
    assert_eq!(parse_busctl_property("t -1"), None);
    assert_eq!(parse_busctl_property("s \"x\""), None);
    assert_eq!(parse_busctl_property("b"), None);
    assert_eq!(logind_object_path(""), "/org/freedesktop/login1");
    assert_eq!(logind_object_path("session/self"), "/org/freedesktop/login1/session/self");
    let ok = idle_status_from(Some(BoolOrU64::Bool(true)), Some(BoolOrU64::U64(5)));
    assert_eq!(ok, Some(IdleStatus { is_idle: true, idle_since_micros: 5 }));
    assert_eq!(idle_status_from(Some(BoolOrU64::U64(1)), Some(BoolOrU64::U64(5))), None);
    assert_eq!(
        query_logind_idle(None, Some(BoolOrU64::U64(9)), Some(BoolOrU64::Bool(false)), Some(BoolOrU64::U64(3))),
        Some(IdleStatus { is_idle: false, idle_since_micros: 3 })
    );
    assert_eq!(
        query_logind_idle(Some(BoolOrU64::Bool(true)), Some(BoolOrU64::U64(1)), Some(BoolOrU64::Bool(false)), Some(BoolOrU64::U64(3))),
        Some(IdleStatus { is_idle: true, idle_since_micros: 1 })
    );
    assert_eq!(query_logind_idle(None, None, None, None), None);
    assert!(inhibitors_block_idle(&strings(&["sleep", "shutdown:idle"])));
    assert!(!inhibitors_block_idle(&strings(&["sleep:handle-lid-switch", "idler"])));
    assert!(!inhibitors_block_idle(&strings(&[])));
}

#[test]
fn clock_and_seed() {
    assert_eq!(micros_or_zero(None), 0);
    assert_eq!(micros_or_zero(Some(12)), 12);
    assert_eq!(micros_or_zero(Some((1u128 << 64) + 5)), 5);
    let now = current_time_micros();
    let reference = std::time::SystemTime::now()
        .duration_since(std::time::UNIX_EPOCH)
        .unwrap()
        .as_micros() as u64;
    assert!(now > 0 && now <= reference);
}

#[test]
fn saver_pick_prefers_allowlisted_choice() {
    let cat = catalog();
    let c = DaemonConfig::default();
    assert_eq!(pick_saver_name(&c, &cat, 123), "beams");
    let mut r = DaemonConfig::default();
    r.active_saver = None;
    let seed: u64 = 7;
    let mixed = seed.wrapping_mul(6364136223846793005).wrapping_add(1442695040888963407);
    let expected = &cat.allowed[(mixed % 7) as usize];
    assert_eq!(&pick_saver_name(&r, &cat, seed), expected);
    r.active_saver = Some("evil".to_string());
    assert!(cat.allowed.contains(&pick_saver_name(&r, &cat, 99)));
    assert_eq!(cat.installed_savers(), strings(&["beams", "storm"]));
}

#[test]
fn settings_file_parse_and_apply() {
    let text = "# comment\nidle_timeout_mins: 30\nactive_saver: \"storm\"\nidle_enabled: false\nshow_fps_overlay: 'true'\nrender_scale: null\nbogus line\n";
    let entries = parse_config_entries(text);
    assert_eq!(entries.len(), 5);
    let c = DaemonConfig::from_entries(&entries, &catalog());
    assert_eq!(c.idle_timeout_mins, 30);
    assert_eq!(c.active_saver.as_deref(), Some("storm"));
    assert!(!c.idle_enabled);
    assert!(c.show_fps_overlay);
    assert_eq!(c.render_scale, None);

    let bad = parse_config_entries("idle_timeout_mins: 999\nactive_saver: rm -rf\n");
    let d = DaemonConfig::from_entries(&bad, &catalog());
    assert_eq!(d.idle_timeout_mins, 10);
    assert_eq!(d.active_saver.as_deref(), Some("beams"));

    let mut e = DaemonConfig::default();
    e.apply_entry(
        &ConfigEntry { key: "render_scale".to_string(), value: "3.0".to_string(), scale: Some(3.0f32.to_bits()) },
        &catalog(),
    );
    assert_eq!(e.render_scale, Some(1.0f32.to_bits()));
    e.apply_entry(
        &ConfigEntry { key: "render_scale".to_string(), value: "0.1".to_string(), scale: Some(0.1f32.to_bits()) },
        &catalog(),
    );
    assert_eq!(e.render_scale, Some(0.25f32.to_bits()));
}

#[test]
fn settings_file_text() {
    let mut c = DaemonConfig::default();
    c.idle_timeout_mins = 12;
    let t = c.file_text("0.5");
    assert!(t.contains("idle_timeout_mins: 12\n"));
    assert!(t.contains("active_saver: \"beams\"\n"));
    assert!(t.contains("render_scale: null\n"));
    c.render_scale = Some(0.5f32.to_bits());
    c.active_saver = None;
    let u = c.file_text("0.5");
    assert!(u.contains("render_scale: 0.5\n"));
    assert!(u.contains("active_saver: \"none\"\n"));
}

#[test]
fn default_settings() {
    let c = DaemonConfig::default();
    assert_eq!(c.idle_timeout_mins, 10);
    assert_eq!(c.active_saver.as_deref(), Some("beams"));
    assert!(c.idle_enabled);
    assert!(!c.show_fps_overlay);
    assert!(!c.gpu_enabled);
    assert_eq!(c.render_scale, None);
}

#[test]
fn settings_saved_then_loaded_come_back() {
    let mut c = DaemonConfig::default();
    c.idle_timeout_mins = 240;
    c.active_saver = Some("storm".to_string());
    c.idle_enabled = false;
    c.show_fps_overlay = true;
    c.render_scale = Some(0.75f32.to_bits());
    let text = c.file_text("0.75");
    let entries: Vec<ConfigEntry> = parse_config_entries(&text)
        .into_iter()
        .map(|e| {
            let scale = if e.key == "render_scale" { e.value.parse::<f32>().ok().map(f32::to_bits) } else { None };
            ConfigEntry { scale, ..e }
        })
        .collect();
    assert_eq!(entries.len(), 8);
    let back = DaemonConfig::from_entries(&entries, &catalog());
    assert!(back.same_as(&c));
    assert_eq!(back, c);

    let mut n = DaemonConfig::default();
    n.active_saver = None;
    let again = DaemonConfig::from_entries(&parse_config_entries(&n.file_text("")), &catalog());
    assert_eq!(again, n);
}

#[test]
fn status_ticks() {
    let c = DaemonConfig::default();
    let mut s = DaemonStatus::from_config(&c);
    assert!(s.running && s.idle_enabled && !s.system_idle);
    let live = LiveState { system_idle: true, presentation_active: true, preview_active: false, session_locked: false, inhibited: false };
    assert!(s.update_live_state(&c, live, "beams"));
    assert_eq!(s.current_saver, "beams");
    let again = LiveState { system_idle: true, presentation_active: true, preview_active: false, session_locked: false, inhibited: false };
    assert!(!s.update_live_state(&c, again, "beams"));
    let mut d = DaemonConfig::default();
    d.idle_timeout_mins = 9;
    s.sync_config(&d);
    assert_eq!(s.idle_timeout_mins, 9);
    assert!(reload_due(0) && reload_due(20) && !reload_due(7));
    let mut cur = DaemonConfig::default();
    let out = cur.reload_from(d);
    assert!(out.changed);
    assert_eq!(out.new_timeout, Some(9));
    let same = cur.duplicate();
    let out2 = cur.reload_from(same);
    assert!(!out2.changed);
    assert_eq!(out2.new_timeout, None);
}

#[test]
fn failsafe_locker_pieces() {
    assert_eq!(pick_terminal(&vec![false, true, true]), Some("foot"));
    assert_eq!(pick_terminal(&vec![false, false]), None);
    assert_eq!(pick_terminal(&vec![true]), Some("xterm"));
    assert_eq!(locker_args("konsole", "/usr/bin/trance-daemon"), strings(&["--", "/usr/bin/trance-daemon", "failsafe-lock"]));
    assert_eq!(locker_args("kitty", "/x"), strings(&["-e", "/x", "failsafe-lock"]));
    assert_eq!(password_from_line("hunter2\r\n"), "hunter2");
    assert_eq!(password_from_line("pw\n\n"), "pw");
    assert_eq!(password_from_line("a\nb"), "a\nb");
    assert_eq!(locker_user(None, Some("ann")), "ann");
    assert_eq!(locker_user(None, None), "user");
    assert_eq!(locker_user(Some("root"), Some("ann")), "root");
    assert_eq!(password_prompt("ann"), "Password for ann: ");
    assert_eq!(attempt_report(true), strings(&["Authentication successful. Session unlocked."]));
    assert_eq!(attempt_report(false).len(), 2);
    assert_eq!(lock_banner().len(), 6);
    assert!(watchdog_needs_locker(false, true, 1));
    assert!(watchdog_needs_locker(false, false, 0));
    assert!(!watchdog_needs_locker(false, true, 0));
    assert!(!watchdog_needs_locker(true, false, 9));
}

#[test]
fn process_loop_decisions() {
    let base = LoopTick { idle_enabled: true, system_idle: true, child_running: false, child_exited: false, has_display: true, warn_due: true };
    assert_eq!(idle_loop_step(base), LoopAction::Launch);
    assert_eq!(idle_loop_step(LoopTick { has_display: false, ..base }), LoopAction::WarnHeadless);
    assert_eq!(idle_loop_step(LoopTick { has_display: false, warn_due: false, ..base }), LoopAction::Nothing);
    assert_eq!(idle_loop_step(LoopTick { child_running: true, child_exited: true, ..base }), LoopAction::ForgetExited);
    assert_eq!(idle_loop_step(LoopTick { child_running: true, ..base }), LoopAction::Nothing);
    assert_eq!(idle_loop_step(LoopTick { child_running: true, system_idle: false, ..base }), LoopAction::KillForActivity);
    assert_eq!(idle_loop_step(LoopTick { child_running: true, idle_enabled: false, ..base }), LoopAction::KillForDisabled);

    let idle = Some(IdleStatus { is_idle: true, idle_since_micros: 1_000_000 });
    assert!(logind_timed_out(idle, 1_000_000 + 300 * 1_000_000, 5));
    assert!(!logind_timed_out(idle, 1_000_000 + 299 * 1_000_000 + 999_999, 5));
    assert!(logind_timed_out(idle, 0, 0));
    assert!(!logind_timed_out(Some(IdleStatus { is_idle: true, idle_since_micros: 0 }), 9_000_000_000, 1));
    assert!(!logind_timed_out(None, 9_000_000_000, 1));

    let cat = catalog();
    assert_eq!(launch_choice(Some("anything"), &cat, 1), "anything");
    let seed: u64 = 42;
    let mixed = seed.wrapping_mul(6364136223846793005).wrapping_add(1442695040888963407);
    assert_eq!(launch_choice(None, &cat, seed), cat.allowed[(mixed % 7) as usize]);
}

#[test]
fn catalog_from_plugin_files() {
    let stems = strings(&["libstorm", "beams", "notasaver", "libcosmosx"]);
    let c = SaverCatalog::from_plugin_files(&stems);
    assert_eq!(c.allowed, strings(&["beams", "bursts", "chaos", "cosmos", "glyphs", "gnats", "storm"]));
    assert_eq!(c.installed, strings(&["beams", "storm"]));
    assert!(SaverCatalog::from_plugin_files(&vec![]).installed.is_empty());
}

#[test]
fn environment_overrides() {
    let mut c = DaemonConfig::default();
    c.apply_env_overrides(Some("30"), Some("storm"), Some("true"), &catalog());
    assert_eq!(c.idle_timeout_mins, 30);
    assert_eq!(c.active_saver.as_deref(), Some("storm"));
    assert!(c.show_fps_overlay);
    c.apply_env_overrides(Some("0"), Some("evil"), Some("yes"), &catalog());
    assert_eq!(c.idle_timeout_mins, 30);
    assert_eq!(c.active_saver.as_deref(), Some("storm"));
    assert!(c.show_fps_overlay);
    c.apply_env_overrides(None, Some("none"), None, &catalog());
    assert_eq!(c.active_saver, None);
    assert_eq!(c.idle_timeout_mins, 30);
}
