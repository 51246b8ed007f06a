//! Daemon start-up: whether it may run at all, and whether another instance owns the
//! pid file.

use vstd::prelude::*;

use crate::text::{cat3, parse_i32, parse_signed, signed_string, signed_text, trim_str, trim_ws};

verus! {

broadcast use vstd::string::group_string_axioms;

/// How the daemon's start-up ends.
#[derive(Debug, Clone, Copy, PartialEq, Eq)]
pub enum DaemonStartup {
    /// No Wayland session: fail.
    MissingWayland,
    /// Another daemon with this pid is alive: exit quietly.
    AlreadyRunning(i32),
    /// Write our pid to the pid file and run.
    Proceed,
}

/// The pid recorded in a pid file: its trimmed contents as an `i32`.
pub open spec fn recorded_pid(contents: Seq<char>) -> Option<i32> {
    match parse_signed(trim_ws(contents), i32::MIN as int, i32::MAX as int) {
        Some(v) => Some(v as i32),
        None => None,
    }
}

/// The pid recorded in a pid file.
pub fn pid_in_file(contents: &str) -> (r: Option<i32>)
    ensures
        r == recorded_pid(contents@),
{
    match parse_i32(trim_str(contents)) {
        Some(v) => Some(v),
        None => None,
    }
}

/// The start-up decision: without `WAYLAND_DISPLAY` the daemon fails; when the pid file
/// names a live process other than this one, it leaves; else it takes over the pid file.
pub open spec fn startup(wayland_display_set: bool, recorded: Option<i32>, recorded_alive: bool, our_pid: i32) -> DaemonStartup {
    if !wayland_display_set {
        DaemonStartup::MissingWayland
    } else {
        match recorded {
            Some(p) if recorded_alive && p != our_pid => DaemonStartup::AlreadyRunning(p),
            _ => DaemonStartup::Proceed,
        }
    }
}

/// Decide how the daemon starts: `wayland_display_set` tells whether `WAYLAND_DISPLAY` is
/// set, `recorded` is the pid in the pid file (when it holds one), `recorded_alive`
/// whether a process with that pid exists, and `our_pid` this process's pid.
pub fn run_daemon(wayland_display_set: bool, recorded: Option<i32>, recorded_alive: bool, our_pid: i32) -> (r: DaemonStartup)
    ensures
        r == startup(wayland_display_set, recorded, recorded_alive, our_pid),
{
    if !wayland_display_set {
        return DaemonStartup::MissingWayland;
    }
    match recorded {
        Some(p) => if recorded_alive && p != our_pid {
            DaemonStartup::AlreadyRunning(p)
        } else {
            DaemonStartup::Proceed
        },
        None => DaemonStartup::Proceed,
    }
}

/// The message for a start-up that does not proceed (empty for one that does).
pub open spec fn startup_text(s: DaemonStartup) -> Seq<char> {
    match s {
        DaemonStartup::MissingWayland => "WAYLAND_DISPLAY is not set; trance requires a Wayland session"@,
        DaemonStartup::AlreadyRunning(p) => "trance-daemon is already running (pid "@ + signed_text(p as int)
            + "). Exiting."@,
        DaemonStartup::Proceed => Seq::empty(),
    }
}

/// The message for a start-up that does not proceed.
pub fn startup_message(s: DaemonStartup) -> (r: String)
    ensures
        r@ == startup_text(s),
{
    match s {
        DaemonStartup::MissingWayland => "WAYLAND_DISPLAY is not set; trance requires a Wayland session".to_string(),
        DaemonStartup::AlreadyRunning(p) => {
            let t = signed_string(p);
            cat3("trance-daemon is already running (pid ", t.as_str(), "). Exiting.")
        },
        DaemonStartup::Proceed => String::new(),
    }
}

} // verus!
