//! The failsafe locker that takes over when the screensaver runner dies: which terminal
//! runs it, and what it says. Authentication itself is PAM's.

use vstd::prelude::*;

use crate::cli_config::arg_views;
use crate::text::{cat3, str_eq, trim_end_matches_str, trim_end_str};

verus! {

broadcast use vstd::string::group_string_axioms;

/// The terminal emulators tried, in order.
pub open spec fn terminals() -> Seq<Seq<char>> {
    seq![
        "xterm"@,
        "foot"@,
        "gnome-terminal"@,
        "konsole"@,
        "kitty"@,
        "alacritty"@,
        "wezterm"@,
        "weston-terminal"@,
    ]
}

/// The terminal emulators tried, in order.
pub fn terminal_emulators() -> (r: Vec<&'static str>)
    ensures
        crate::text::views(r@) == terminals(),
{
    let v = vec!["xterm", "foot", "gnome-terminal", "konsole", "kitty", "alacritty", "wezterm", "weston-terminal"];
    assert(crate::text::views(v@) =~= terminals());
    v
}

/// The index of the first entry that is `true`.
pub open spec fn first_true(found: Seq<bool>, i: int) -> Option<int>
    decreases found.len() - i,
{
    if i < 0 || i >= found.len() {
        None
    } else if found[i] {
        Some(i)
    } else {
        first_true(found, i + 1)
    }
}

/// The terminal to run the locker in: the first emulator whose probe succeeded
/// (`found[i]` for the `i`-th of `terminals()`); none when no probe did.
pub open spec fn picked_terminal(found: Seq<bool>) -> Option<Seq<char>> {
    match first_true(found, 0) {
        Some(i) => if i < terminals().len() {
            Some(terminals()[i])
        } else {
            None
        },
        None => None,
    }
}

/// The terminal to run the locker in (see `picked_terminal`).
pub fn pick_terminal(found: &Vec<bool>) -> (r: Option<&'static str>)
    ensures
        match r {
            Some(t) => picked_terminal(found@) == Some(t@),
            None => picked_terminal(found@) is None,
        },
{
    let names = terminal_emulators();
    let mut i: usize = 0;
    while i < found.len()
        invariant
            i <= found.len(),
            crate::text::views(names@) == terminals(),
            first_true(found@, 0) == first_true(found@, i as int),
        decreases found.len() - i,
    {
        if found[i] {
            if i < names.len() {
                assert(crate::text::views(names@)[i as int] == names@[i as int]@);
                return Some(names[i]);
            }
            return None;
        }
        i = i + 1;
    }
    None
}

/// The arguments that make a terminal run `exe failsafe-lock`: after `--` for
/// `gnome-terminal` and `konsole`, after `-e` for the others.
pub open spec fn locker_arguments(term: Seq<char>, exe: Seq<char>) -> Seq<Seq<char>> {
    if term == "gnome-terminal"@ || term == "konsole"@ {
        seq!["--"@, exe, "failsafe-lock"@]
    } else {
        seq!["-e"@, exe, "failsafe-lock"@]
    }
}

/// The arguments for the terminal that runs the locker.
pub fn locker_args(term: &str, exe: &str) -> (r: Vec<String>)
    ensures
        arg_views(r@) == locker_arguments(term@, exe@),
{
    let mut v: Vec<String> = Vec::new();
    if str_eq(term, "gnome-terminal") || str_eq(term, "konsole") {
        v.push("--".to_string());
    } else {
        v.push("-e".to_string());
    }
    v.push(exe.to_string());
    v.push("failsafe-lock".to_string());
    assert(arg_views(v@) =~= locker_arguments(term@, exe@));
    v
}

/// The password typed on a line: without its trailing line feeds, then carriage returns.
pub open spec fn password_of(line: Seq<char>) -> Seq<char> {
    trim_end_str(trim_end_str(line, "\n"@), "\r"@)
}

/// The password typed on a line read from the terminal.
pub fn password_from_line(line: &str) -> (r: String)
    ensures
        r@ == password_of(line@),
{
    trim_end_matches_str(trim_end_matches_str(line, "\n"), "\r").to_string()
}

/// The user to authenticate: the account name of our uid, else `USER`, else `user`.
pub open spec fn locker_user_of(account: Option<Seq<char>>, user_env: Option<Seq<char>>) -> Seq<char> {
    match account {
        Some(a) => a,
        None => match user_env {
            Some(u) => u,
            None => "user"@,
        },
    }
}

/// The user to authenticate.
pub fn locker_user(account: Option<&str>, user_env: Option<&str>) -> (r: String)
    ensures
        r@ == locker_user_of(
            match account {
                Some(a) => Some(a@),
                None => None,
            },
            match user_env {
                Some(u) => Some(u@),
                None => None,
            },
        ),
{
    match account {
        Some(a) => a.to_string(),
        None => match user_env {
            Some(u) => u.to_string(),
            None => "user".to_string(),
        },
    }
}

/// The locker's banner, after clearing the screen.
pub open spec fn banner_lines() -> Seq<Seq<char>> {
    seq![
        "\u{1b}[2J\u{1b}[H"@,
        "============================================================"@,
        "trance: SCREENSAVER RUNNER CRASHED / EXITED UNEXPECTEDLY!"@,
        "SESSION IS LOCKED FOR SECURITY."@,
        "============================================================"@,
        ""@,
    ]
}

/// The locker's banner lines.
pub fn lock_banner() -> (r: Vec<String>)
    ensures
        arg_views(r@) == banner_lines(),
{
    let mut v: Vec<String> = Vec::new();
    v.push("\u{1b}[2J\u{1b}[H".to_string());
    v.push("============================================================".to_string());
    v.push("trance: SCREENSAVER RUNNER CRASHED / EXITED UNEXPECTEDLY!".to_string());
    v.push("SESSION IS LOCKED FOR SECURITY.".to_string());
    v.push("============================================================".to_string());
    v.push("".to_string());
    assert(arg_views(v@) =~= banner_lines());
    v
}

/// The password prompt for a user.
pub fn password_prompt(user: &str) -> (r: String)
    ensures
        r@ == "Password for "@ + user@ + ": "@,
{
    cat3("Password for ", user, ": ")
}

/// The lines after an authentication attempt; the locker ends after a success.
pub open spec fn attempt_lines(ok: bool) -> Seq<Seq<char>> {
    if ok {
        seq!["Authentication successful. Session unlocked."@]
    } else {
        seq!["Authentication failed. Please try again."@, ""@]
    }
}

/// The lines printed after an authentication attempt.
pub fn attempt_report(ok: bool) -> (r: Vec<String>)
    ensures
        arg_views(r@) == attempt_lines(ok),
{
    let mut v: Vec<String> = Vec::new();
    if ok {
        v.push("Authentication successful. Session unlocked.".to_string());
    } else {
        v.push("Authentication failed. Please try again.".to_string());
        v.push("".to_string());
    }
    assert(arg_views(v@) =~= attempt_lines(ok));
    v
}

/// Whether the runner watchdog must start the failsafe locker: the runner ended
/// without being asked to, and not by a normal exit with status 0.
pub open spec fn needs_locker(expected_stop: bool, exited_normally: bool, exit_status: i32) -> bool {
    !expected_stop && !(exited_normally && exit_status == 0)
}

/// Decide whether the runner's end calls for the failsafe locker.
pub fn watchdog_needs_locker(expected_stop: bool, exited_normally: bool, exit_status: i32) -> (r: bool)
    ensures
        r == needs_locker(expected_stop, exited_normally, exit_status),
{
    !expected_stop && !(exited_normally && exit_status == 0)
}

} // verus!
