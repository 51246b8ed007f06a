//! The process-per-saver idle loop: once a second, decide whether the screensaver child
//! is launched, kept, reaped or killed. Running processes and reading the clock is the
//! caller's work.

use vstd::prelude::*;

use crate::logind::IdleStatus;
use crate::saver::{lcg, SaverCatalog};

verus! {

broadcast use vstd::string::group_string_axioms;

/// Whether logind's idle report means the idle timeout has run out: the session is idle,
/// with a known start, for at least `timeout_mins` whole minutes (counted in whole
/// seconds, `now` before the start counting as no time).
pub open spec fn idle_timed_out(idle: Option<IdleStatus>, now_micros: u64, timeout_mins: u32) -> bool {
    match idle {
        Some(s) => s.is_idle && s.idle_since_micros > 0 && (if now_micros >= s.idle_since_micros {
            now_micros - s.idle_since_micros
        } else {
            0
        }) / 1_000_000 >= timeout_mins * 60,
        None => false,
    }
}

/// Decide from logind's idle report whether the idle timeout has run out.
pub fn logind_timed_out(idle: Option<IdleStatus>, now_micros: u64, timeout_mins: u32) -> (r: bool)
    requires
        timeout_mins * 60 <= u32::MAX,
    ensures
        r == idle_timed_out(idle, now_micros, timeout_mins),
{
    match idle {
        Some(s) => {
            if s.is_idle && s.idle_since_micros > 0 {
                let elapsed_sec = now_micros.saturating_sub(s.idle_since_micros) / 1_000_000;
                let target_sec = (timeout_mins * 60) as u64;
                elapsed_sec >= target_sec
            } else {
                false
            }
        },
        None => false,
    }
}

/// What one second of the loop saw.
#[derive(Debug, Clone, Copy, PartialEq, Eq)]
pub struct LoopTick {
    pub idle_enabled: bool,
    pub system_idle: bool,
    /// A screensaver child is running.
    pub child_running: bool,
    /// The running child has exited (its status was collected).
    pub child_exited: bool,
    /// `DISPLAY` or `WAYLAND_DISPLAY` is set.
    pub has_display: bool,
    /// No headless warning was given in the last minute.
    pub warn_due: bool,
}

/// What the loop does this second.
#[derive(Debug, Clone, Copy, PartialEq, Eq)]
pub enum LoopAction {
    Nothing,
    /// Launch the saver chosen for this tick.
    Launch,
    /// Warn that the session is idle without a display, and note the time.
    WarnHeadless,
    /// Forget the child that exited.
    ForgetExited,
    /// Kill the child: the user is back.
    KillForActivity,
    /// Kill the child: idle activation was turned off.
    KillForDisabled,
}

/// The loop's decision: with idle activation on, an idle session gets a saver (when a
/// display is there, else a warning at most once a minute) and a running one is reaped
/// once it exits; activity kills it. With idle activation off, a running saver is killed.
pub open spec fn loop_action(t: LoopTick) -> LoopAction {
    if t.idle_enabled {
        if t.system_idle {
            if !t.child_running {
                if t.has_display {
                    LoopAction::Launch
                } else if t.warn_due {
                    LoopAction::WarnHeadless
                } else {
                    LoopAction::Nothing
                }
            } else if t.child_exited {
                LoopAction::ForgetExited
            } else {
                LoopAction::Nothing
            }
        } else if t.child_running {
            LoopAction::KillForActivity
        } else {
            LoopAction::Nothing
        }
    } else if t.child_running {
        LoopAction::KillForDisabled
    } else {
        LoopAction::Nothing
    }
}

/// One second of the idle loop: what to do, leaving the processes to the caller.
pub fn idle_loop_step(t: LoopTick) -> (r: LoopAction)
    ensures
        r == loop_action(t),
{
    if t.idle_enabled {
        if t.system_idle {
            if !t.child_running {
                if t.has_display {
                    LoopAction::Launch
                } else if t.warn_due {
                    LoopAction::WarnHeadless
                } else {
                    LoopAction::Nothing
                }
            } else if t.child_exited {
                LoopAction::ForgetExited
            } else {
                LoopAction::Nothing
            }
        } else if t.child_running {
            LoopAction::KillForActivity
        } else {
            LoopAction::Nothing
        }
    } else if t.child_running {
        LoopAction::KillForDisabled
    } else {
        LoopAction::Nothing
    }
}

/// The saver this loop launches: the configured one as it is (the launcher refuses names
/// off the allowlist), else the allowlisted saver at `lcg(seed) % n`.
pub open spec fn launched_saver(active: Option<Seq<char>>, catalog: SaverCatalog, seed: u64) -> Seq<char> {
    match active {
        Some(a) => a,
        None => catalog.allowed@[(lcg(seed) % (catalog.allowed@.len() as u64)) as int]@,
    }
}

/// The saver to launch, from the configured one and the clock's microseconds.
pub fn launch_choice(active: Option<&str>, catalog: &SaverCatalog, seed_micros: u64) -> (r: String)
    requires
        catalog.allowed@.len() > 0,
    ensures
        r@ == launched_saver(
            match active {
                Some(a) => Some(a@),
                None => None,
            },
            *catalog,
            seed_micros,
        ),
{
    match active {
        Some(a) => a.to_string(),
        None => {
            let seed = seed_micros.wrapping_mul(6364136223846793005).wrapping_add(1442695040888963407);
            proof {
                reveal(lcg);
            }
            let index = (seed % (catalog.allowed.len() as u64)) as usize;
            catalog.allowed[index].clone()
        },
    }
}

/// The loop never launches a second saver while one runs, and never leaves a saver
/// running once idle activation is off or the user is back.
pub proof fn law_one_saver_at_a_time(t: LoopTick)
    ensures
        loop_action(t) == LoopAction::Launch ==> !t.child_running,
        t.child_running && !t.idle_enabled ==> loop_action(t) == LoopAction::KillForDisabled,
        t.child_running && t.idle_enabled && !t.system_idle ==> loop_action(t) == LoopAction::KillForActivity,
{
}

/// An active session never times out: when logind reports the session as not idle (or
/// gives no report), the idle timeout has not run out, whatever the clock and the timeout.
pub proof fn law_active_session_never_times_out(idle: Option<IdleStatus>, now_micros: u64, timeout_mins: u32)
    requires
        idle matches Some(s) ==> !s.is_idle,
    ensures
        !idle_timed_out(idle, now_micros, timeout_mins),
{
}

/// With a timeout of at least a minute, the idle timeout has run out exactly when logind
/// reports the session idle since a known time at least `timeout_mins` minutes ago.
pub proof fn law_timeout_after_idle_minutes(idle: Option<IdleStatus>, now_micros: u64, timeout_mins: u32)
    requires
        timeout_mins > 0,
    ensures
        idle_timed_out(idle, now_micros, timeout_mins) <==> (idle matches Some(s) && s.is_idle
            && s.idle_since_micros > 0 && now_micros - s.idle_since_micros >= timeout_mins * 60 * 1_000_000),
{
    if let Some(s) = idle {
        let t = timeout_mins * 60;
        if now_micros >= s.idle_since_micros {
            let x = now_micros - s.idle_since_micros;
            assert(x / 1_000_000 >= t <==> x >= t * 1_000_000) by (nonlinear_arith)
                requires
                    x >= 0,
                    t >= 0,
            ;
        }
    }
}

} // verus!
