//! The command line's first argument: which command it names, and whether the command
//! needs the daemon.

use vstd::prelude::*;

use crate::cli_config::arg_views;
use crate::text::{cat, str_eq};

verus! {

broadcast use vstd::string::group_string_axioms;

/// A command served by the running daemon.
#[derive(Debug, Clone, PartialEq, Eq)]
pub enum DaemonRequest {
    Status,
    Config,
    Interactive,
    Enable,
    Disable,
    Timeout,
    Saver,
    List,
    Inhibitors,
    Preview,
    Stop,
    FpsOverlay,
    RenderScale,
    /// No command has this name: print the usage, then fail with this message.
    Unknown(String),
}

/// What the command line does with its arguments.
#[derive(Debug, Clone, PartialEq, Eq)]
pub enum CliAction {
    /// Print the usage.
    Usage,
    /// Print the version; with `about`, the short project information too.
    Version { about: bool },
    /// Fail with this message.
    Fail(String),
    Doctor { fix: bool, json: bool },
    Clean,
    Completion,
    BugReport,
    SelfUpdate,
    /// Run `trance-tui` with the remaining arguments.
    Tui,
    /// Connect to the daemon (failing when it is not running), then serve this.
    Daemon(DaemonRequest),
}

/// The mathematical value of a daemon request.
pub enum RequestKind {
    Status,
    Config,
    Interactive,
    Enable,
    Disable,
    Timeout,
    Saver,
    List,
    Inhibitors,
    Preview,
    Stop,
    FpsOverlay,
    RenderScale,
    Unknown(Seq<char>),
}

/// The mathematical value of an action.
pub enum ActionView {
    Usage,
    Version { about: bool },
    Fail(Seq<char>),
    Doctor { fix: bool, json: bool },
    Clean,
    Completion,
    BugReport,
    SelfUpdate,
    Tui,
    Daemon(RequestKind),
}

impl View for DaemonRequest {
    type V = RequestKind;

    open spec fn view(&self) -> RequestKind {
        match self {
            DaemonRequest::Status => RequestKind::Status,
            DaemonRequest::Config => RequestKind::Config,
            DaemonRequest::Interactive => RequestKind::Interactive,
            DaemonRequest::Enable => RequestKind::Enable,
            DaemonRequest::Disable => RequestKind::Disable,
            DaemonRequest::Timeout => RequestKind::Timeout,
            DaemonRequest::Saver => RequestKind::Saver,
            DaemonRequest::List => RequestKind::List,
            DaemonRequest::Inhibitors => RequestKind::Inhibitors,
            DaemonRequest::Preview => RequestKind::Preview,
            DaemonRequest::Stop => RequestKind::Stop,
            DaemonRequest::FpsOverlay => RequestKind::FpsOverlay,
            DaemonRequest::RenderScale => RequestKind::RenderScale,
            DaemonRequest::Unknown(m) => RequestKind::Unknown(m@),
        }
    }
}

impl View for CliAction {
    type V = ActionView;

    open spec fn view(&self) -> ActionView {
        match self {
            CliAction::Usage => ActionView::Usage,
            CliAction::Version { about } => ActionView::Version { about: *about },
            CliAction::Fail(m) => ActionView::Fail(m@),
            CliAction::Doctor { fix, json } => ActionView::Doctor { fix: *fix, json: *json },
            CliAction::Clean => ActionView::Clean,
            CliAction::Completion => ActionView::Completion,
            CliAction::BugReport => ActionView::BugReport,
            CliAction::SelfUpdate => ActionView::SelfUpdate,
            CliAction::Tui => ActionView::Tui,
            CliAction::Daemon(r) => ActionView::Daemon(r@),
        }
    }
}

/// Some argument equals `a` or `b`.
pub open spec fn has_flag(args: Seq<Seq<char>>, a: Seq<char>, b: Seq<char>) -> bool {
    exists|i: int| 0 <= i < args.len() && (args[i] == a || args[i] == b)
}

/// The daemon command a name stands for.
pub open spec fn request_for(head: Seq<char>) -> RequestKind {
    if head == "status"@ || head == "st"@ {
        RequestKind::Status
    } else if head == "config"@ || head == "cfg"@ {
        RequestKind::Config
    } else if head == "interactive"@ || head == "i"@ {
        RequestKind::Interactive
    } else if head == "enable"@ || head == "on"@ {
        RequestKind::Enable
    } else if head == "disable"@ || head == "off"@ {
        RequestKind::Disable
    } else if head == "timeout"@ || head == "t"@ {
        RequestKind::Timeout
    } else if head == "saver"@ {
        RequestKind::Saver
    } else if head == "list"@ || head == "ls"@ {
        RequestKind::List
    } else if head == "inhibitors"@ {
        RequestKind::Inhibitors
    } else if head == "preview"@ || head == "p"@ {
        RequestKind::Preview
    } else if head == "stop"@ {
        RequestKind::Stop
    } else if head == "fps-overlay"@ || head == "fps"@ {
        RequestKind::FpsOverlay
    } else if head == "render-scale"@ || head == "scale"@ {
        RequestKind::RenderScale
    } else {
        RequestKind::Unknown("unknown command: "@ + head)
    }
}

/// What the command line does with `args` (the arguments after the program name):
/// the global flags first, then the commands that need no daemon, then the daemon's.
pub open spec fn cli_action(args: Seq<Seq<char>>) -> ActionView {
    if args.len() == 0 {
        ActionView::Usage
    } else {
        let head = args[0];
        let rest = args.drop_first();
        if head == "-h"@ || head == "--help"@ || head == "help"@ {
            ActionView::Usage
        } else if head == "-V"@ || head == "--version"@ || head == "version"@ || head == "v"@ {
            ActionView::Version { about: false }
        } else if head == "-help"@ {
            ActionView::Fail("unknown option: -help (use --help or -h, or: trance help)"@)
        } else if head == "-version"@ {
            ActionView::Fail("unknown option: -version (use --version or -V, or: trance version / trance v)"@)
        } else if head == "about"@ {
            ActionView::Version { about: true }
        } else if head == "doctor"@ || head == "doc"@ {
            ActionView::Doctor {
                fix: has_flag(rest, "--fix"@, "-f"@),
                json: has_flag(rest, "--json"@, "-j"@),
            }
        } else if head == "clean"@ {
            ActionView::Clean
        } else if head == "completion"@ {
            ActionView::Completion
        } else if head == "bug-report"@ {
            ActionView::BugReport
        } else if head == "self-update"@ || head == "update"@ {
            ActionView::SelfUpdate
        } else if head == "tui"@ {
            ActionView::Tui
        } else {
            ActionView::Daemon(request_for(head))
        }
    }
}

/// Whether some argument after the first equals `a` or `b`.
fn flag_present(args: &Vec<String>, a: &str, b: &str) -> (r: bool)
    requires
        args.len() > 0,
    ensures
        r == has_flag(arg_views(args@).drop_first(), a@, b@),
{
    let ghost rest = arg_views(args@).drop_first();
    let mut i: usize = 1;
    while i < args.len()
        invariant
            1 <= i <= args.len(),
            rest == arg_views(args@).drop_first(),
            forall|j: int| 0 <= j < i - 1 ==> !(rest[j] == a@ || rest[j] == b@),
        decreases args.len() - i,
    {
        assert(rest[i - 1] == args@[i as int]@);
        if str_eq(args[i].as_str(), a) || str_eq(args[i].as_str(), b) {
            assert(0 <= i - 1 < rest.len() && (rest[i - 1] == a@ || rest[i - 1] == b@));
            return true;
        }
        i = i + 1;
    }
    false
}

fn daemon_request(head: &str) -> (r: DaemonRequest)
    ensures
        r@ == request_for(head@),
{
    if str_eq(head, "status") || str_eq(head, "st") {
        DaemonRequest::Status
    } else if str_eq(head, "config") || str_eq(head, "cfg") {
        DaemonRequest::Config
    } else if str_eq(head, "interactive") || str_eq(head, "i") {
        DaemonRequest::Interactive
    } else if str_eq(head, "enable") || str_eq(head, "on") {
        DaemonRequest::Enable
    } else if str_eq(head, "disable") || str_eq(head, "off") {
        DaemonRequest::Disable
    } else if str_eq(head, "timeout") || str_eq(head, "t") {
        DaemonRequest::Timeout
    } else if str_eq(head, "saver") {
        DaemonRequest::Saver
    } else if str_eq(head, "list") || str_eq(head, "ls") {
        DaemonRequest::List
    } else if str_eq(head, "inhibitors") {
        DaemonRequest::Inhibitors
    } else if str_eq(head, "preview") || str_eq(head, "p") {
        DaemonRequest::Preview
    } else if str_eq(head, "stop") {
        DaemonRequest::Stop
    } else if str_eq(head, "fps-overlay") || str_eq(head, "fps") {
        DaemonRequest::FpsOverlay
    } else if str_eq(head, "render-scale") || str_eq(head, "scale") {
        DaemonRequest::RenderScale
    } else {
        DaemonRequest::Unknown(cat("unknown command: ", head))
    }
}

/// Decide what the command line does with its arguments (those after the program name).
pub fn cli_dispatch(args: &Vec<String>) -> (r: CliAction)
    ensures
        r@ == cli_action(arg_views(args@)),
{
    let ghost a = arg_views(args@);
    if args.len() == 0 {
        return CliAction::Usage;
    }
    assert(a[0] == args@[0]@);
    let head = args[0].as_str();
    if str_eq(head, "-h") || str_eq(head, "--help") || str_eq(head, "help") {
        CliAction::Usage
    } else if str_eq(head, "-V") || str_eq(head, "--version") || str_eq(head, "version") || str_eq(head, "v") {
        CliAction::Version { about: false }
    } else if str_eq(head, "-help") {
        CliAction::Fail("unknown option: -help (use --help or -h, or: trance help)".to_string())
    } else if str_eq(head, "-version") {
        CliAction::Fail("unknown option: -version (use --version or -V, or: trance version / trance v)".to_string())
    } else if str_eq(head, "about") {
        CliAction::Version { about: true }
    } else if str_eq(head, "doctor") || str_eq(head, "doc") {
        let fix = flag_present(args, "--fix", "-f");
        let json = flag_present(args, "--json", "-j");
        CliAction::Doctor { fix, json }
    } else if str_eq(head, "clean") {
        CliAction::Clean
    } else if str_eq(head, "completion") {
        CliAction::Completion
    } else if str_eq(head, "bug-report") {
        CliAction::BugReport
    } else if str_eq(head, "self-update") || str_eq(head, "update") {
        CliAction::SelfUpdate
    } else if str_eq(head, "tui") {
        CliAction::Tui
    } else {
        CliAction::Daemon(daemon_request(head))
    }
}

/// A shell with a completion script.
#[derive(Debug, Clone, Copy, PartialEq, Eq)]
pub enum Shell {
    Bash,
    Zsh,
}

/// The shell `trance completion` asks for, or the message refusing the arguments.
pub open spec fn completion_for(args: Seq<Seq<char>>) -> Result<Shell, Seq<char>> {
    if args.len() == 0 {
        Err("usage: trance completion bash | zsh"@)
    } else if args[0] == "bash"@ {
        Ok(Shell::Bash)
    } else if args[0] == "zsh"@ {
        Ok(Shell::Zsh)
    } else {
        Err("unsupported shell '"@ + args[0] + "'; please specify 'bash' or 'zsh'"@)
    }
}

/// Read the arguments of `trance completion`.
pub fn completion_shell(args: &Vec<String>) -> (r: Result<Shell, String>)
    ensures
        match r {
            Ok(sh) => completion_for(arg_views(args@)) == Ok::<Shell, Seq<char>>(sh),
            Err(e) => completion_for(arg_views(args@)) == Err::<Shell, Seq<char>>(e@),
        },
{
    if args.len() == 0 {
        return Err("usage: trance completion bash | zsh".to_string());
    }
    assert(arg_views(args@)[0] == args@[0]@);
    let a = args[0].as_str();
    if str_eq(a, "bash") {
        Ok(Shell::Bash)
    } else if str_eq(a, "zsh") {
        Ok(Shell::Zsh)
    } else {
        Err(crate::text::cat3("unsupported shell '", a, "'; please specify 'bash' or 'zsh'"))
    }
}

/// `trance disable` and `trance off` ask the daemon to disable idle activation, and
/// `trance enable` and `trance on` to enable it, whatever arguments follow; no other
/// command line asks for either.
pub proof fn law_enable_disable_commands(args: Seq<Seq<char>>)
    ensures
        cli_action(args) == ActionView::Daemon(RequestKind::Disable) <==> (args.len() > 0 && (args[0]
            == "disable"@ || args[0] == "off"@)),
        cli_action(args) == ActionView::Daemon(RequestKind::Enable) <==> (args.len() > 0 && (args[0]
            == "enable"@ || args[0] == "on"@)),
{
    reveal_strlit("disable");
    reveal_strlit("off");
    reveal_strlit("enable");
    reveal_strlit("on");
    reveal_strlit("-h");
    reveal_strlit("--help");
    reveal_strlit("help");
    reveal_strlit("-V");
    reveal_strlit("--version");
    reveal_strlit("version");
    reveal_strlit("v");
    reveal_strlit("-help");
    reveal_strlit("-version");
    reveal_strlit("about");
    reveal_strlit("doctor");
    reveal_strlit("doc");
    reveal_strlit("clean");
    reveal_strlit("completion");
    reveal_strlit("bug-report");
    reveal_strlit("self-update");
    reveal_strlit("update");
    reveal_strlit("tui");
    reveal_strlit("status");
    reveal_strlit("st");
    reveal_strlit("config");
    reveal_strlit("cfg");
    reveal_strlit("interactive");
    reveal_strlit("i");
    if args.len() > 0 {
        let h = args[0];
        if h == "disable"@ {
            assert(h[0] == 'd' && h[1] == 'i');
        } else if h == "off"@ {
            assert(h[0] == 'o' && h[1] == 'f');
        } else if h == "enable"@ {
            assert(h[0] == 'e');
        } else if h == "on"@ {
            assert(h[0] == 'o');
        }
    }
}

} // verus!
