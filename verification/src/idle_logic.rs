//! One tick of the idle-driven presentation state machine: the policy decision, and
//! what it means for the presentation, the saver shown and the pending preview.
//! Starting and stopping the presentation itself is the caller's work.

use vstd::prelude::*;

use crate::config::DaemonConfig;
use crate::idle_decision::{
    decide, decide_presentation, DecisionView, IdlePolicyInput, PolicyView, PresentationDecision,
};
use crate::text::str_eq;

verus! {

broadcast use vstd::string::group_string_axioms;

/// What the presenter must do this tick.
#[derive(Debug, Clone, PartialEq, Eq)]
pub struct PresentationPlan {
    /// Stop the active presentation.
    pub stop: bool,
    /// Then start this saver, for this reason (`preview` or `idle`).
    pub start: Option<(String, &'static str)>,
    /// Log that user activity ended the presentation.
    pub log_activity_stop: bool,
}

/// The mathematical value of a plan.
pub struct PlanView {
    pub stop: bool,
    pub start: Option<(Seq<char>, Seq<char>)>,
    pub log_activity_stop: bool,
}

impl View for PresentationPlan {
    type V = PlanView;

    open spec fn view(&self) -> PlanView {
        PlanView {
            stop: self.stop,
            start: match self.start {
                Some((n, r)) => Some((n@, r@)),
                None => None,
            },
            log_activity_stop: self.log_activity_stop,
        }
    }
}

/// The plan for a decision, with the saver shown and the pending preview it leaves:
/// a stop of an active presentation clears the saver shown (and the preview when the
/// decision says so); a start first stops a different saver that is showing, then starts
/// unless the same saver is already showing.
pub open spec fn plan_for(
    decision: DecisionView,
    is_active: bool,
    current_saver: Seq<char>,
    preview: Option<Seq<char>>,
    system_idle: bool,
) -> (PlanView, Seq<char>, Option<Seq<char>>) {
    match decision {
        DecisionView::Hold => (
            PlanView { stop: false, start: None, log_activity_stop: false },
            current_saver,
            preview,
        ),
        DecisionView::Stop { clear_preview } => (
            PlanView {
                stop: is_active,
                start: None,
                log_activity_stop: is_active && !system_idle && preview is None,
            },
            if is_active {
                Seq::empty()
            } else {
                current_saver
            },
            if clear_preview {
                None
            } else {
                preview
            },
        ),
        DecisionView::Start { name, reason } => {
            let stop_first = is_active && current_saver != name;
            (
                PlanView {
                    stop: stop_first,
                    start: if !is_active || stop_first {
                        Some((name, reason))
                    } else {
                        None
                    },
                    log_activity_stop: false,
                },
                if stop_first {
                    Seq::empty()
                } else {
                    current_saver
                },
                preview,
            )
        },
    }
}

pub open spec fn opt_view(o: Option<String>) -> Option<Seq<char>> {
    match o {
        Some(s) => Some(s@),
        None => None,
    }
}

/// Plan one presentation tick, leaving the presenter calls to the caller: decide,
/// then update the saver shown and the pending preview. After the caller starts a
/// saver successfully, it records it as the saver shown.
pub fn plan_presentation_update(
    is_active: bool,
    surface_visible: bool,
    current_saver: &mut String,
    preview_name: &mut Option<String>,
    config: &DaemonConfig,
    system_idle: bool,
    session_locked: bool,
    inhibited: bool,
    idle_saver_name: &str,
) -> (plan: PresentationPlan)
    ensures
        ({
            let input = PolicyView {
                is_active,
                surface_visible,
                current_saver: old(current_saver)@,
                preview_name: opt_view(*old(preview_name)),
                idle_enabled: config.idle_enabled,
                system_idle,
                session_locked,
                inhibited,
            };
            (plan@, final(current_saver)@, opt_view(*final(preview_name))) == plan_for(
                decide(input, idle_saver_name@),
                is_active,
                old(current_saver)@,
                opt_view(*old(preview_name)),
                system_idle,
            )
        }),
{
    let decision = {
        let input = IdlePolicyInput {
            is_active,
            surface_visible,
            current_saver: current_saver.as_str(),
            preview_name: match preview_name {
                Some(p) => Some(p.as_str()),
                None => None,
            },
            idle_enabled: config.idle_enabled,
            system_idle,
            session_locked,
            inhibited,
        };
        decide_presentation(input, idle_saver_name)
    };
    match decision {
        PresentationDecision::Hold => PresentationPlan { stop: false, start: None, log_activity_stop: false },
        PresentationDecision::Stop { clear_preview } => {
            let log_activity_stop = is_active && !system_idle && preview_name.is_none();
            if is_active {
                *current_saver = String::new();
            }
            if clear_preview {
                *preview_name = None;
            }
            PresentationPlan { stop: is_active, start: None, log_activity_stop }
        },
        PresentationDecision::Start { name, reason } => {
            let stop_first = is_active && !str_eq(current_saver.as_str(), name.as_str());
            if stop_first {
                *current_saver = String::new();
            }
            let start = if !is_active || stop_first {
                Some((name, reason))
            } else {
                None
            };
            PresentationPlan { stop: stop_first, start, log_activity_stop: false }
        },
    }
}


/// Once a start succeeds, the next tick with the same conditions keeps the saver running:
/// the state machine does not restart what it just started.
pub proof fn law_started_saver_is_kept(p: PolicyView, idle_saver_name: Seq<char>)
    requires
        decide(p, idle_saver_name) is Start,
    ensures
        ({
            let name = decide(p, idle_saver_name)->Start_name;
            let next = PolicyView { is_active: true, surface_visible: true, current_saver: name, ..p };
            decide(next, idle_saver_name) == DecisionView::Hold
        }),
{
}

/// A tick while the session is locked or inhibited starts nothing, stops an active
/// presentation, and leaves no preview pending.
pub proof fn law_tick_under_lock_or_inhibit(p: PolicyView, idle_saver_name: Seq<char>)
    requires
        p.session_locked || p.inhibited,
    ensures
        ({
            let (plan, _, preview) = plan_for(
                decide(p, idle_saver_name),
                p.is_active,
                p.current_saver,
                p.preview_name,
                p.system_idle,
            );
            &&& plan.start is None
            &&& plan.stop == p.is_active
            &&& preview is None
        }),
{
}

} // verus!
