use trance::idle_decision::{decide_presentation, IdlePolicyInput, PresentationDecision};

fn base() -> IdlePolicyInput<'static> {
    IdlePolicyInput {
        is_active: false,
        surface_visible: true,
        current_saver: "",
        preview_name: None,
        idle_enabled: true,
        system_idle: false,
        session_locked: false,
        inhibited: false,
    }
}

#[test]
fn idle_starts_saver() {
    let mut i = base();
    i.system_idle = true;
    assert_eq!(
        decide_presentation(i, "beams"),
        PresentationDecision::Start { name: "beams".into(), reason: "idle" }
    );
}

#[test]
fn activity_stops_active_idle() {
    let mut i = base();
    i.is_active = true;
    i.current_saver = "beams";
    i.system_idle = false;
    assert_eq!(decide_presentation(i, "beams"), PresentationDecision::Stop { clear_preview: false });
}

#[test]
fn preview_survives_activity() {
    let mut i = base();
    i.is_active = true;
    i.current_saver = "storm";
    i.preview_name = Some("storm");
    i.system_idle = false;
    assert_eq!(decide_presentation(i, "beams"), PresentationDecision::Hold);
}

#[test]
fn lock_stops_and_clears_preview() {
    let mut i = base();
    i.is_active = true;
    i.session_locked = true;
    assert_eq!(decide_presentation(i, "beams"), PresentationDecision::Stop { clear_preview: true });
}

#[test]
fn inhibit_stops() {
    let mut i = base();
    i.is_active = true;
    i.inhibited = true;
    assert_eq!(decide_presentation(i, "beams"), PresentationDecision::Stop { clear_preview: true });
}

#[test]
fn preview_overrides_idle() {
    let mut i = base();
    i.system_idle = true;
    i.preview_name = Some("storm");
    assert_eq!(
        decide_presentation(i, "beams"),
        PresentationDecision::Start { name: "storm".into(), reason: "preview" }
    );
}

#[test]
fn preview_switch_restarts() {
    let mut i = base();
    i.is_active = true;
    i.current_saver = "beams";
    i.preview_name = Some("storm");
    assert_eq!(
        decide_presentation(i, "beams"),
        PresentationDecision::Start { name: "storm".into(), reason: "preview" }
    );
}

#[test]
fn disabled_stops_active() {
    let mut i = base();
    i.is_active = true;
    i.idle_enabled = false;
    i.system_idle = true;
    assert_eq!(decide_presentation(i, "beams"), PresentationDecision::Stop { clear_preview: false });
}

#[test]
fn stale_surface_stops() {
    let mut i = base();
    i.is_active = true;
    i.surface_visible = false;
    assert_eq!(decide_presentation(i, "beams"), PresentationDecision::Stop { clear_preview: true });
}

#[test]
fn hold_when_idle_already_active() {
    let mut i = base();
    i.is_active = true;
    i.system_idle = true;
    i.current_saver = "beams";
    assert_eq!(decide_presentation(i, "beams"), PresentationDecision::Hold);
}

#[test]
fn inactive_without_idle_holds() {
    let i = base();
    assert_eq!(decide_presentation(i, "beams"), PresentationDecision::Hold);
    let mut j = base();
    j.session_locked = true;
    j.system_idle = true;
    assert_eq!(decide_presentation(j, "beams"), PresentationDecision::Hold);
    j.preview_name = Some("storm");
    assert_eq!(decide_presentation(j, "beams"), PresentationDecision::Stop { clear_preview: true });
}
