use trance::cli_config::SettingsReport;
use trance::interactive::{
    choice_line, immediate_call, menu_choice, panel, preview_line, preview_menu, saver_answer, saver_line, saver_menu, timeout_answer, timeout_line,
    MenuChoice, PanelCall, SaverAnswer, TimeoutAnswer,
};

fn report() -> SettingsReport {
    SettingsReport {
        idle_enabled: false,
        idle_timeout_mins: 7,
        active_saver: "storm".to_string(),
        gpu_enabled: false,
        show_fps_overlay: false,
        render_scale: String::new(),
    }
}

fn names() -> Vec<String> {
    vec!["beams".to_string(), "storm".to_string()]
}

#[test]
fn panel_text_shows_settings() {
    let t = panel(&report());
    let ruler = "=".repeat(42);
    assert!(t.starts_with(&format!("\n{ruler}\nTrance Interactive Control Panel\n{ruler}\n")));
    assert!(t.contains(" 1. Toggle Idle Activation (Current: DISABLED)\n"));
    assert!(t.contains(" 2. Set Idle Timeout       (Current: 7 mins)\n"));
    assert!(t.contains(" 3. Select Active Saver    (Current: storm)\n"));
    assert!(t.contains(" 5. Toggle FPS Overlay     (Current: OFF)\n"));
    assert!(t.ends_with(" 7. Exit\n\nSelect an option (1-7): "));
}

#[test]
fn menu_answers() {
    assert_eq!(menu_choice(" 1\n"), MenuChoice::ToggleIdle);
    assert_eq!(menu_choice("7"), MenuChoice::Exit);
    assert_eq!(menu_choice("8"), MenuChoice::Invalid);
    assert_eq!(menu_choice(""), MenuChoice::Invalid);
    let s = report();
    assert_eq!(choice_line(MenuChoice::ToggleIdle, &s), "Enabled screensaver activation.");
    assert_eq!(choice_line(MenuChoice::ToggleFpsOverlay, &s), "FPS overlay toggled to ON.");
    assert_eq!(choice_line(MenuChoice::Invalid, &s), "Invalid selection. Please enter a number 1-7.");
    assert_eq!(choice_line(MenuChoice::Preview, &s), "");
}

#[test]
fn timeout_prompt() {
    assert_eq!(timeout_answer("30\n"), TimeoutAnswer::Minutes(30));
    assert_eq!(timeout_answer("0"), TimeoutAnswer::OutOfRange);
    assert_eq!(timeout_answer("241"), TimeoutAnswer::OutOfRange);
    assert_eq!(timeout_answer("ten"), TimeoutAnswer::Invalid);
    assert_eq!(timeout_line(TimeoutAnswer::Minutes(30)), "Timeout updated to 30 minutes.");
    assert_eq!(timeout_line(TimeoutAnswer::OutOfRange), "Invalid range (must be 1-240).");
    assert_eq!(timeout_line(TimeoutAnswer::Invalid), "Invalid input.");
}

#[test]
fn saver_and_preview_menus() {
    assert_eq!(
        saver_menu(&names()),
        "\nAvailable Screensavers:\n  0. random (default)\n  1. beams\n  2. storm\nSelect a saver (0-2): "
    );
    assert_eq!(
        preview_menu(&names()),
        "\nChoose screensaver to preview:\n  1. beams\n  2. storm\nSelect a screensaver (1-2): "
    );
    assert_eq!(saver_answer("0", &names(), true), SaverAnswer::Random);
    assert_eq!(saver_answer("2\n", &names(), true), SaverAnswer::Named("storm".to_string()));
    assert_eq!(saver_answer("3", &names(), true), SaverAnswer::OutOfRange);
    assert_eq!(saver_answer("x", &names(), true), SaverAnswer::Unreadable);
    assert_eq!(saver_answer("0", &names(), false), SaverAnswer::OutOfRange);
    assert_eq!(saver_line(&SaverAnswer::Random), "Active screensaver set to: random");
    assert_eq!(saver_line(&SaverAnswer::Named("beams".into())), "Active screensaver set to: beams");
    assert_eq!(saver_line(&SaverAnswer::Unreadable), "");
    assert_eq!(preview_line(&SaverAnswer::Named("beams".into())), "Starting preview of beams...");
    assert_eq!(preview_line(&SaverAnswer::OutOfRange), "Invalid choice.");
}

#[test]
fn options_call_the_daemon() {
    let off = report();
    let mut on = report();
    on.idle_enabled = true;
    on.show_fps_overlay = true;
    assert_eq!(immediate_call(MenuChoice::ToggleIdle, &off), Some(PanelCall::Enable));
    assert_eq!(immediate_call(MenuChoice::ToggleIdle, &on), Some(PanelCall::Disable));
    assert_eq!(immediate_call(MenuChoice::ToggleFpsOverlay, &off), Some(PanelCall::SetShowFpsOverlay(true)));
    assert_eq!(immediate_call(MenuChoice::ToggleFpsOverlay, &on), Some(PanelCall::SetShowFpsOverlay(false)));
    assert_eq!(immediate_call(MenuChoice::Stop, &off), Some(PanelCall::StopPreview));
    assert_eq!(immediate_call(MenuChoice::Exit, &off), None);
    assert_eq!(immediate_call(MenuChoice::SetTimeout, &off), None);
}
