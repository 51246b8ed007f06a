use trance::cli::{cli_dispatch, completion_shell, CliAction, DaemonRequest, Shell};
use trance::cli_config::{config_get_line, config_list_lines, parse_config_args, set_done_line, ConfigChange, ConfigRequest, SettingsReport};

fn args(a: &[&str]) -> Vec<String> {
    a.iter().map(|s| s.to_string()).collect()
}

#[test]
fn test_completion_bash() {
    assert_eq!(cli_dispatch(&args(&["completion", "bash"])), CliAction::Completion);
    assert!(completion_shell(&args(&["bash"])).is_ok());
}

#[test]
fn test_completion_zsh() {
    assert_eq!(cli_dispatch(&args(&["completion", "zsh"])), CliAction::Completion);
    assert_eq!(completion_shell(&args(&["zsh"])), Ok(Shell::Zsh));
}

#[test]
fn test_completion_invalid() {
    assert_eq!(cli_dispatch(&args(&["completion", "invalid"])), CliAction::Completion);
    assert_eq!(
        completion_shell(&args(&["invalid"])),
        Err("unsupported shell 'invalid'; please specify 'bash' or 'zsh'".to_string())
    );
    assert_eq!(completion_shell(&args(&[])), Err("usage: trance completion bash | zsh".to_string()));
}

#[test]
fn test_bug_report() {
    assert_eq!(cli_dispatch(&args(&["bug-report"])), CliAction::BugReport);
}

#[test]
fn test_self_update() {
    assert_eq!(cli_dispatch(&args(&["self-update"])), CliAction::SelfUpdate);
    assert_eq!(cli_dispatch(&args(&["update"])), CliAction::SelfUpdate);
}

#[test]
fn test_clean_stale() {
    assert_eq!(cli_dispatch(&args(&["clean"])), CliAction::Clean);
}

#[test]
fn test_invalid_command() {
    assert_eq!(
        cli_dispatch(&args(&["invalid-command-name"])),
        CliAction::Daemon(DaemonRequest::Unknown("unknown command: invalid-command-name".to_string()))
    );
}

#[test]
fn global_flags_and_aliases() {
    assert_eq!(cli_dispatch(&args(&[])), CliAction::Usage);
    assert_eq!(cli_dispatch(&args(&["-h"])), CliAction::Usage);
    assert_eq!(cli_dispatch(&args(&["-V"])), CliAction::Version { about: false });
    assert_eq!(cli_dispatch(&args(&["about"])), CliAction::Version { about: true });
    assert_eq!(
        cli_dispatch(&args(&["-help"])),
        CliAction::Fail("unknown option: -help (use --help or -h, or: trance help)".to_string())
    );
    assert_eq!(cli_dispatch(&args(&["st"])), CliAction::Daemon(DaemonRequest::Status));
    assert_eq!(cli_dispatch(&args(&["scale", "0.5"])), CliAction::Daemon(DaemonRequest::RenderScale));
    assert_eq!(cli_dispatch(&args(&["doc", "-j", "x"])), CliAction::Doctor { fix: false, json: true });
    assert_eq!(cli_dispatch(&args(&["doctor", "--fix"])), CliAction::Doctor { fix: true, json: false });
    // Flags only count after the command name.
    assert_eq!(cli_dispatch(&args(&["doctor"])), CliAction::Doctor { fix: false, json: false });
}

fn report() -> SettingsReport {
    SettingsReport {
        idle_enabled: true,
        idle_timeout_mins: 15,
        active_saver: String::new(),
        gpu_enabled: false,
        show_fps_overlay: true,
        render_scale: "0.5".to_string(),
    }
}

#[test]
fn config_get_and_list() {
    let s = report();
    assert_eq!(config_get_line("timeout", &s), Ok("15".to_string()));
    assert_eq!(config_get_line("saver", &s), Ok("random".to_string()));
    assert_eq!(config_get_line("render_scale", &s), Ok("0.5".to_string()));
    assert_eq!(config_get_line("colour", &s), Err("unknown configuration key: colour".to_string()));
    let lines = config_list_lines(&s);
    assert_eq!(lines[0], "idle_enabled:      true");
    assert_eq!(lines[2], "active_saver:      random");
    assert_eq!(lines[5], "render_scale:      0.5");
    assert_eq!(lines.len(), 6);
}

#[test]
fn config_set_values() {
    assert_eq!(
        parse_config_args(&args(&["set", "timeout", "30"]), None),
        Ok(ConfigRequest::Update { key: "timeout".into(), value: "30".into(), change: ConfigChange::SetTimeout(30) })
    );
    assert_eq!(
        parse_config_args(&args(&["set", "timeout", "0"]), None),
        Err("timeout must be between 1 and 240 minutes".to_string())
    );
    assert_eq!(
        parse_config_args(&args(&["set", "timeout", "x"]), None),
        Err("value must be an integer (1\u{2013}240)".to_string())
    );
    assert_eq!(
        parse_config_args(&args(&["set", "enabled", "yes"]), None),
        Err("value must be true or false".to_string())
    );
    match parse_config_args(&args(&["set", "saver", "none"]), None) {
        Ok(ConfigRequest::Update { change, .. }) => assert_eq!(change, ConfigChange::SetSaver(String::new())),
        other => panic!("unexpected {other:?}"),
    }
    match parse_config_args(&args(&["set", "scale", "default"]), None) {
        Ok(ConfigRequest::Update { change, .. }) => assert_eq!(change, ConfigChange::SetRenderScale(0)),
        other => panic!("unexpected {other:?}"),
    }
    match parse_config_args(&args(&["set", "scale", "0.75"]), Some(0.75f32.to_bits())) {
        Ok(ConfigRequest::Update { change, .. }) => assert_eq!(change, ConfigChange::SetRenderScale(0.75f32.to_bits())),
        other => panic!("unexpected {other:?}"),
    }
    assert_eq!(
        parse_config_args(&args(&["set", "scale", "2"]), Some(2.0f32.to_bits())),
        Err("scale must be between 0.25 and 1.0, or 'default'".to_string())
    );
    assert_eq!(
        parse_config_args(&args(&["set", "scale", "big"]), None),
        Err("value must be between 0.25 and 1.0, or 'default'".to_string())
    );
    assert_eq!(parse_config_args(&args(&["set", "hue", "1"]), None), Err("unknown configuration key: hue".to_string()));
}

#[test]
fn config_usage_errors() {
    assert_eq!(
        parse_config_args(&args(&[]), None),
        Err("usage: trance config get <key> | set <key> <val> | list".to_string())
    );
    assert_eq!(parse_config_args(&args(&["get"]), None), Err("usage: trance config get <key>".to_string()));
    assert_eq!(parse_config_args(&args(&["set", "a"]), None), Err("usage: trance config set <key> <value>".to_string()));
    assert_eq!(
        parse_config_args(&args(&["drop"]), None),
        Err("unknown config action; use get, set, or list".to_string())
    );
    assert_eq!(parse_config_args(&args(&["list"]), None), Ok(ConfigRequest::List));
    assert_eq!(parse_config_args(&args(&["get", "fps"]), None), Ok(ConfigRequest::Get("fps".to_string())));
    assert_eq!(set_done_line("fps", "true"), "Set config key 'fps' to 'true' successfully.");
}
