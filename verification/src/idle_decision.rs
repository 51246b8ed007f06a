//! Presentation policy: from the idle, lock, inhibit and preview state of one
//! tick to the transition the presenter should make. No Wayland here.

use vstd::prelude::*;

use crate::text::str_eq;

verus! {

broadcast use vstd::string::group_string_axioms;

/// Desired presentation transition for one policy tick.
#[derive(Debug, Clone, PartialEq, Eq)]
pub enum PresentationDecision {
    /// No change required.
    Hold,
    /// Stop any active presentation.
    Stop {
        /// Clear the forced preview name (lock, inhibit, stale surface).
        clear_preview: bool,
    },
    /// Start (or switch to) this saver.
    Start { name: String, reason: &'static str },
}

/// The mathematical value of a `PresentationDecision`.
pub enum DecisionView {
    Hold,
    Stop { clear_preview: bool },
    Start { name: Seq<char>, reason: Seq<char> },
}

impl View for PresentationDecision {
    type V = DecisionView;

    open spec fn view(&self) -> DecisionView {
        match self {
            PresentationDecision::Hold => DecisionView::Hold,
            PresentationDecision::Stop { clear_preview } => DecisionView::Stop {
                clear_preview: *clear_preview,
            },
            PresentationDecision::Start { name, reason } => DecisionView::Start {
                name: name@,
                reason: reason@,
            },
        }
    }
}

/// Inputs for one idle-policy evaluation.
#[derive(Debug, Clone, Copy)]
pub struct IdlePolicyInput<'a> {
    pub is_active: bool,
    pub surface_visible: bool,
    pub current_saver: &'a str,
    pub preview_name: Option<&'a str>,
    pub idle_enabled: bool,
    pub system_idle: bool,
    pub session_locked: bool,
    pub inhibited: bool,
}

/// The mathematical value of the policy inputs.
pub struct PolicyView {
    pub is_active: bool,
    pub surface_visible: bool,
    pub current_saver: Seq<char>,
    pub preview_name: Option<Seq<char>>,
    pub idle_enabled: bool,
    pub system_idle: bool,
    pub session_locked: bool,
    pub inhibited: bool,
}

impl<'a> View for IdlePolicyInput<'a> {
    type V = PolicyView;

    open spec fn view(&self) -> PolicyView {
        PolicyView {
            is_active: self.is_active,
            surface_visible: self.surface_visible,
            current_saver: self.current_saver@,
            preview_name: match self.preview_name {
                Some(p) => Some(p@),
                None => None,
            },
            idle_enabled: self.idle_enabled,
            system_idle: self.system_idle,
            session_locked: self.session_locked,
            inhibited: self.inhibited,
        }
    }
}

/// The reason tag of a start forced by a preview request.
pub open spec fn preview_reason() -> Seq<char> {
    "preview"@
}

/// The reason tag of a start caused by system idle.
pub open spec fn idle_reason() -> Seq<char> {
    "idle"@
}

/// The policy, in the order its rules take precedence:
/// a stale surface stops; lock or inhibit stops (clearing any preview) or holds;
/// a pending preview starts or switches to the preview, or holds once it shows;
/// system idle starts the idle saver; activity or a disabled idle policy stops
/// an idle-driven presentation; otherwise hold.
pub open spec fn decide(input: PolicyView, idle_saver_name: Seq<char>) -> DecisionView {
    if input.is_active && !input.surface_visible {
        DecisionView::Stop { clear_preview: true }
    } else if input.session_locked || input.inhibited {
        if input.is_active || input.preview_name is Some {
            DecisionView::Stop { clear_preview: true }
        } else {
            DecisionView::Hold
        }
    } else if input.preview_name is Some {
        let name = input.preview_name->0;
        if !input.is_active || input.current_saver != name {
            DecisionView::Start { name, reason: preview_reason() }
        } else {
            DecisionView::Hold
        }
    } else if input.idle_enabled && input.system_idle && !input.is_active {
        DecisionView::Start { name: idle_saver_name, reason: idle_reason() }
    } else if input.is_active && (!input.system_idle || !input.idle_enabled) {
        DecisionView::Stop { clear_preview: false }
    } else {
        DecisionView::Hold
    }
}

/// Decide the next presentation action from pure inputs.
///
/// `idle_saver_name` is used only when starting due to system idle.
pub fn decide_presentation(input: IdlePolicyInput<'_>, idle_saver_name: &str) -> (d:
    PresentationDecision)
    ensures
        d@ == decide(input@, idle_saver_name@),
{
    if input.is_active && !input.surface_visible {
        return PresentationDecision::Stop { clear_preview: true };
    }
    if input.session_locked || input.inhibited {
        if input.is_active || input.preview_name.is_some() {
            return PresentationDecision::Stop { clear_preview: true };
        }
        return PresentationDecision::Hold;
    }
    if let Some(name) = input.preview_name {
        if input.is_active && !str_eq(input.current_saver, name) {
            return PresentationDecision::Start { name: name.to_string(), reason: "preview" };
        }
        if !input.is_active {
            return PresentationDecision::Start { name: name.to_string(), reason: "preview" };
        }
        return PresentationDecision::Hold;
    }
    if input.idle_enabled && input.system_idle && !input.is_active {
        return PresentationDecision::Start { name: idle_saver_name.to_string(), reason: "idle" };
    }
    // Activity only stops idle-driven presentation, not an explicit preview.
    if input.is_active && !input.system_idle {
        return PresentationDecision::Stop { clear_preview: false };
    }
    if !input.idle_enabled && input.is_active {
        return PresentationDecision::Stop { clear_preview: false };
    }
    PresentationDecision::Hold
}


/// A stale surface (active but no longer visible) always stops the presentation
/// and clears any forced preview.
pub proof fn law_stale_surface_stops(input: PolicyView, idle_saver_name: Seq<char>)
    requires
        input.is_active,
        !input.surface_visible,
    ensures
        decide(input, idle_saver_name) == (DecisionView::Stop { clear_preview: true }),
{
}

/// While the session is locked or an inhibitor is held, nothing starts: an active
/// presentation or a pending preview is stopped and the preview cleared; otherwise hold.
pub proof fn law_lock_or_inhibit_never_starts(input: PolicyView, idle_saver_name: Seq<char>)
    requires
        input.session_locked || input.inhibited,
    ensures
        decide(input, idle_saver_name) == (if input.is_active || input.preview_name is Some {
            DecisionView::Stop { clear_preview: true }
        } else {
            DecisionView::Hold
        }),
{
}

/// A preview that is already showing survives user activity and an idle policy
/// that is disabled: only lock, inhibit or a stale surface end it.
pub proof fn law_preview_survives_activity(input: PolicyView, idle_saver_name: Seq<char>)
    requires
        input.is_active,
        input.surface_visible,
        !input.session_locked,
        !input.inhibited,
        input.preview_name is Some,
        input.current_saver == input.preview_name->0,
    ensures
        decide(input, idle_saver_name) == DecisionView::Hold,
{
}

/// User activity stops an idle-driven presentation (no preview pending) without
/// touching the preview slot.
pub proof fn law_activity_stops_idle_presentation(
    input: PolicyView,
    idle_saver_name: Seq<char>,
)
    requires
        input.is_active,
        input.surface_visible,
        !input.session_locked,
        !input.inhibited,
        input.preview_name is None,
        !input.system_idle,
    ensures
        decide(input, idle_saver_name) == (DecisionView::Stop { clear_preview: false }),
{
}

/// Every start is either the pending preview (reason `preview`) or, with no preview
/// pending, the idle saver on system idle with the idle policy enabled (reason `idle`);
/// and a start never targets the saver that is already showing.
pub proof fn law_starts_are_preview_or_idle(input: PolicyView, idle_saver_name: Seq<char>)
    ensures
        decide(input, idle_saver_name) matches DecisionView::Start { name, reason } ==> {
            &&& input.surface_visible || !input.is_active
            &&& !input.session_locked
            &&& !input.inhibited
            &&& !(input.is_active && input.current_saver == name)
            &&& ((reason == preview_reason() && input.preview_name is Some
                && input.preview_name->0 == name) || (reason == idle_reason()
                && input.preview_name is None && input.idle_enabled && input.system_idle
                && !input.is_active && name == idle_saver_name))
        },
{
}

/// With the idle policy disabled, the only presentation that can start is a preview,
/// and an idle-driven presentation is stopped.
pub proof fn law_disabled_policy_never_starts_idle(
    input: PolicyView,
    idle_saver_name: Seq<char>,
)
    requires
        !input.idle_enabled,
    ensures
        decide(input, idle_saver_name) matches DecisionView::Start { reason, .. } ==> reason
            == preview_reason(),
        input.is_active && input.surface_visible && !input.session_locked && !input.inhibited
            && input.preview_name is None ==> decide(input, idle_saver_name) == (
        DecisionView::Stop { clear_preview: false }),
{
}

} // verus!
