//! The daemon executable's arguments.

use vstd::prelude::*;

use crate::cli_config::arg_views;
use crate::text::{cat3, contains, contains_str, str_eq};

verus! {

broadcast use vstd::string::group_string_axioms;

/// What the daemon executable does with its arguments.
#[derive(Debug, Clone, PartialEq, Eq)]
pub enum DaemonMode {
    /// Run the idle daemon.
    Daemon,
    /// Run this (trusted, allowlisted) saver fullscreen.
    RunPlugin(String),
    /// Print the help text.
    Help,
    /// Print this message to standard error and exit with status 1.
    Fail(String),
}

/// The mathematical value of a mode.
pub enum ModeView {
    Daemon,
    RunPlugin(Seq<char>),
    Help,
    Fail(Seq<char>),
}

impl View for DaemonMode {
    type V = ModeView;

    open spec fn view(&self) -> ModeView {
        match self {
            DaemonMode::Daemon => ModeView::Daemon,
            DaemonMode::RunPlugin(n) => ModeView::RunPlugin(n@),
            DaemonMode::Help => ModeView::Help,
            DaemonMode::Fail(m) => ModeView::Fail(m@),
        }
    }
}

/// What the arguments (the program name first) ask: no argument runs the daemon;
/// `run-plugin` needs a saver name that is not a path.
pub open spec fn daemon_mode_of(args: Seq<Seq<char>>) -> ModeView {
    if args.len() <= 1 {
        ModeView::Daemon
    } else if args[1] == "run-plugin"@ {
        if args.len() < 3 {
            ModeView::Fail("error: missing saver name.\nusage: trance-daemon run-plugin <saver>"@)
        } else if contains(args[2], "/"@) || contains(args[2], "\\"@) {
            ModeView::Fail("error: saver name must not be a path"@)
        } else {
            ModeView::RunPlugin(args[2])
        }
    } else if args[1] == "daemon"@ || args[1] == "--daemon"@ {
        ModeView::Daemon
    } else if args[1] == "--help"@ || args[1] == "-h"@ {
        ModeView::Help
    } else {
        ModeView::Fail("unknown argument: "@ + args[1] + "\ntry --help"@)
    }
}

/// Read the daemon executable's arguments (the program name first).
pub fn daemon_mode(args: &Vec<String>) -> (r: DaemonMode)
    ensures
        r@ == daemon_mode_of(arg_views(args@)),
{
    let ghost a = arg_views(args@);
    if args.len() <= 1 {
        return DaemonMode::Daemon;
    }
    assert(a[1] == args@[1]@);
    let sub = args[1].as_str();
    if str_eq(sub, "run-plugin") {
        if args.len() < 3 {
            DaemonMode::Fail("error: missing saver name.\nusage: trance-daemon run-plugin <saver>".to_string())
        } else {
            assert(a[2] == args@[2]@);
            let name = args[2].as_str();
            if contains_str(name, "/") || contains_str(name, "\\") {
                DaemonMode::Fail("error: saver name must not be a path".to_string())
            } else {
                DaemonMode::RunPlugin(name.to_string())
            }
        }
    } else if str_eq(sub, "daemon") || str_eq(sub, "--daemon") {
        DaemonMode::Daemon
    } else if str_eq(sub, "--help") || str_eq(sub, "-h") {
        DaemonMode::Help
    } else {
        DaemonMode::Fail(cat3("unknown argument: ", sub, "\ntry --help"))
    }
}

/// The daemon's help text.
pub fn daemon_help() -> (r: &'static str)
    ensures
        r@ == "trance-daemon \u{2014} background idle monitoring service for trance\n\nusage:\n  trance-daemon                     run the background idle daemon (default)\n  trance-daemon daemon | --daemon   run the background idle daemon\n  trance-daemon run-plugin <saver>  run a trusted screensaver plugin fullscreen\n  trance-daemon --help | -h         show this help message"@,
{
    "trance-daemon \u{2014} background idle monitoring service for trance\n\nusage:\n  trance-daemon                     run the background idle daemon (default)\n  trance-daemon daemon | --daemon   run the background idle daemon\n  trance-daemon run-plugin <saver>  run a trusted screensaver plugin fullscreen\n  trance-daemon --help | -h         show this help message"
}

/// A saver run fullscreen is named, never given as a path.
pub proof fn law_plugin_name_is_not_a_path(args: Seq<Seq<char>>)
    ensures
        daemon_mode_of(args) matches ModeView::RunPlugin(n) ==> !contains(n, "/"@) && !contains(n, "\\"@),
{
}

} // verus!
