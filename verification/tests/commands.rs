use trance::commands::{normalize_render_scale, validate_idle_timeout, validate_render_scale, CommandError, DaemonCommand};
use trance::config::DaemonConfig;
use trance::saver::SaverCatalog;

fn catalog() -> SaverCatalog {
    SaverCatalog {
        allowed: vec!["beams".to_string(), "storm".to_string(), "glyphs".to_string()],
        installed: vec!["beams".to_string(), "storm".to_string()],
    }
}

fn bits(x: f32) -> u32 {
    x.to_bits()
}

#[test]
fn commands_validate_idle_timeout_bounds() {
    assert!(validate_idle_timeout(0).is_err());
    assert!(validate_idle_timeout(241).is_err());
    assert!(validate_idle_timeout(1).is_ok());
    assert!(validate_idle_timeout(240).is_ok());
    assert!(validate_idle_timeout(120).is_ok());
}

#[test]
fn commands_tests_validate_idle_timeout_bounds() {
    assert!(validate_idle_timeout(0).is_err());
    assert!(validate_idle_timeout(241).is_err());
    assert!(validate_idle_timeout(1).is_ok());
    assert!(validate_idle_timeout(240).is_ok());
    assert!(validate_idle_timeout(120).is_ok());
}

#[test]
fn commands_enable_sets_idle_true() {
    let mut c = DaemonConfig::default();
    c.apply_command(&DaemonCommand::Enable, &catalog()).unwrap();
    assert!(c.idle_enabled);
}

#[test]
fn commands_tests_enable_sets_idle_true() {
    let mut c = DaemonConfig::default();
    c.apply_command(&DaemonCommand::Enable, &catalog()).expect("Enable should succeed");
    assert!(c.idle_enabled);
}

#[test]
fn commands_disable_sets_idle_false() {
    let mut c = DaemonConfig::default();
    c.apply_command(&DaemonCommand::Disable, &catalog()).unwrap();
    assert!(!c.idle_enabled);
}

#[test]
fn commands_tests_disable_sets_idle_false() {
    let mut c = DaemonConfig::default();
    c.apply_command(&DaemonCommand::Disable, &catalog()).expect("Disable should succeed");
    assert!(!c.idle_enabled);
}

fn timeout_range(c: &mut DaemonConfig) {
    let cat = catalog();
    assert!(c.apply_command(&DaemonCommand::SetTimeout(0), &cat).is_err());
    assert!(c.apply_command(&DaemonCommand::SetTimeout(241), &cat).is_err());
    assert!(c.apply_command(&DaemonCommand::SetTimeout(10), &cat).is_ok());
    assert_eq!(c.idle_timeout_mins, 10);
}

#[test]
fn commands_set_timeout_validates_range() {
    timeout_range(&mut DaemonConfig::default());
}

#[test]
fn commands_tests_set_timeout_validates_range() {
    timeout_range(&mut DaemonConfig::default());
}

fn timeout_bounds(c: &mut DaemonConfig) {
    let cat = catalog();
    assert!(c.apply_command(&DaemonCommand::SetTimeout(1), &cat).is_ok());
    assert!(c.apply_command(&DaemonCommand::SetTimeout(240), &cat).is_ok());
    assert_eq!(c.idle_timeout_mins, 240);
}

#[test]
fn commands_set_timeout_accepts_boundaries() {
    timeout_bounds(&mut DaemonConfig::default());
}

#[test]
fn commands_tests_set_timeout_accepts_boundaries() {
    timeout_bounds(&mut DaemonConfig::default());
}

#[test]
fn commands_set_render_scale_zero_normalizes_to_none() {
    let mut c = DaemonConfig::default();
    c.apply_command(&DaemonCommand::SetRenderScale(Some(bits(0.0))), &catalog()).unwrap();
    assert!(c.render_scale.is_none());
}

#[test]
fn commands_tests_set_render_scale_zero_normalizes_to_none() {
    let mut c = DaemonConfig::default();
    c.apply_command(&DaemonCommand::SetRenderScale(Some(bits(0.0))), &catalog())
        .expect("zero scale should normalize");
    assert!(c.render_scale.is_none());
}

fn scale_out_of_range(c: &mut DaemonConfig) {
    let cat = catalog();
    assert!(c.apply_command(&DaemonCommand::SetRenderScale(Some(bits(2.0))), &cat).is_err());
    assert!(c.apply_command(&DaemonCommand::SetRenderScale(Some(bits(0.1))), &cat).is_err());
}

#[test]
fn commands_set_render_scale_rejects_out_of_range() {
    scale_out_of_range(&mut DaemonConfig::default());
}

#[test]
fn commands_tests_set_render_scale_rejects_out_of_range() {
    scale_out_of_range(&mut DaemonConfig::default());
}

#[test]
fn commands_set_render_scale_accepts_in_range() {
    let mut c = DaemonConfig::default();
    c.apply_command(&DaemonCommand::SetRenderScale(Some(bits(0.5))), &catalog()).unwrap();
    assert_eq!(c.render_scale, Some(bits(0.5)));
}

#[test]
fn commands_tests_set_render_scale_accepts_in_range() {
    let mut c = DaemonConfig::default();
    c.apply_command(&DaemonCommand::SetRenderScale(Some(bits(0.5))), &catalog())
        .expect("0.5 scale in range");
    assert_eq!(c.render_scale, Some(bits(0.5)));
}

#[test]
fn commands_set_render_scale_accepts_none() {
    let mut c = DaemonConfig::default();
    c.apply_command(&DaemonCommand::SetRenderScale(None), &catalog()).unwrap();
    assert!(c.render_scale.is_none());
}

#[test]
fn commands_tests_set_render_scale_accepts_none() {
    let mut c = DaemonConfig::default();
    c.apply_command(&DaemonCommand::SetRenderScale(None), &catalog()).expect("None scale accepted");
    assert!(c.render_scale.is_none());
}

fn fps_toggles(c: &mut DaemonConfig) {
    let cat = catalog();
    c.apply_command(&DaemonCommand::SetShowFpsOverlay(true), &cat).expect("enable fps overlay");
    assert!(c.show_fps_overlay);
    c.apply_command(&DaemonCommand::SetShowFpsOverlay(false), &cat).expect("disable fps overlay");
    assert!(!c.show_fps_overlay);
}

#[test]
fn commands_set_show_fps_overlay_toggles() {
    fps_toggles(&mut DaemonConfig::default());
}

#[test]
fn commands_tests_set_show_fps_overlay_toggles() {
    fps_toggles(&mut DaemonConfig::default());
}

fn preview_stop(c: &mut DaemonConfig) {
    let cat = catalog();
    assert!(c.apply_command(&DaemonCommand::Preview("beams".into()), &cat).is_ok());
    assert!(c.apply_command(&DaemonCommand::StopPresentation, &cat).is_ok());
}

#[test]
fn commands_preview_and_stop_are_no_ops() {
    preview_stop(&mut DaemonConfig::default());
}

#[test]
fn commands_tests_preview_and_stop_are_no_ops() {
    preview_stop(&mut DaemonConfig::default());
}

fn scale_checks() {
    assert!(validate_render_scale(bits(0.25)).is_ok());
    assert!(validate_render_scale(bits(1.0)).is_ok());
    assert!(validate_render_scale(bits(0.5)).is_ok());
    assert!(validate_render_scale(bits(0.24)).is_err());
    assert!(validate_render_scale(bits(1.01)).is_err());
    assert!(validate_render_scale(bits(f32::NAN)).is_err());
}

#[test]
fn commands_validate_render_scale_in_range() {
    scale_checks();
}

#[test]
fn commands_tests_validate_render_scale_in_range() {
    scale_checks();
}

#[test]
fn commands_normalize_render_scale_handles_edges() {
    assert!(normalize_render_scale(None).unwrap().is_none());
    assert!(normalize_render_scale(Some(bits(0.0))).unwrap().is_none());
    assert!(normalize_render_scale(Some(bits(-1.0))).unwrap().is_none());
    assert_eq!(normalize_render_scale(Some(bits(0.5))).unwrap(), Some(bits(0.5)));
    assert!(normalize_render_scale(Some(bits(2.0))).is_err());
}

#[test]
fn commands_tests_normalize_render_scale_handles_edges() {
    assert!(normalize_render_scale(None).expect("None ok").is_none());
    assert!(normalize_render_scale(Some(bits(0.0))).expect("0.0 ok").is_none());
    assert!(normalize_render_scale(Some(bits(-1.0))).expect("-1.0 ok").is_none());
    assert_eq!(normalize_render_scale(Some(bits(0.5))).expect("0.5 ok"), Some(bits(0.5)));
    assert!(normalize_render_scale(Some(bits(2.0))).is_err());
}

#[test]
fn saver_choice_errors_name_the_saver() {
    let mut c = DaemonConfig::default();
    let cat = catalog();
    let r = c.apply_command(&DaemonCommand::SetSaver(Some("nope".to_string())), &cat);
    assert_eq!(r, Err(CommandError::UnknownSaver("nope".to_string())));
    assert_eq!(r.unwrap_err().message(), "unknown or invalid screensaver name: nope");
    let r = c.apply_command(&DaemonCommand::SetSaver(Some("glyphs".to_string())), &cat);
    assert_eq!(r, Err(CommandError::SaverNotInstalled("glyphs".to_string())));
    assert_eq!(c.active_saver.as_deref(), Some("beams"));
    c.apply_command(&DaemonCommand::SetSaver(Some("storm".to_string())), &cat).unwrap();
    assert_eq!(c.active_saver.as_deref(), Some("storm"));
    c.apply_command(&DaemonCommand::SetSaver(None), &cat).unwrap();
    assert_eq!(c.active_saver, None);
}

#[test]
fn refused_command_leaves_settings() {
    let mut c = DaemonConfig::default();
    let before = c.duplicate();
    assert_eq!(
        c.apply_command(&DaemonCommand::SetRenderScale(Some(bits(3.0))), &catalog()),
        Err(CommandError::RenderScaleOutOfRange)
    );
    assert!(c.same_as(&before));
    assert_eq!(CommandError::TimeoutOutOfRange.message(), "timeout must be between 1 and 240 minutes");
}
