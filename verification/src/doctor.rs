//! `trance doctor`: the diagnostic checks, from the facts the caller gathered about the
//! environment, the service and the daemon process.

use vstd::prelude::*;

use crate::text::{
    cat, cat3, contains, contains_lowercased, decimal_string, decimal_text, parse_i32,
    parse_signed, signed_string, signed_text, str_eq, to_ascii_lowercase, trim_str, trim_ws,
};

verus! {

broadcast use vstd::string::group_string_axioms;

/// The result of one diagnostic check.
#[derive(Debug, Clone)]
pub struct CheckResult {
    pub name: &'static str,
    pub passed: bool,
    pub detail: String,
}

/// A check result.
pub fn chk(name: &'static str, passed: bool, detail: String) -> (r: CheckResult)
    ensures
        r.name == name,
        r.passed == passed,
        r.detail == detail,
{
    CheckResult { name, passed, detail }
}

/// The environment check: `WAYLAND_DISPLAY` (its value if set and Unicode) must be
/// nonempty.
pub open spec fn wayland_check(var: Option<Seq<char>>) -> (bool, Seq<char>) {
    match var {
        Some(v) if v.len() > 0 => (true, "WAYLAND_DISPLAY="@ + v),
        _ => (false, "WAYLAND_DISPLAY missing; IdleScreen needs a Wayland session"@),
    }
}

/// Check that a Wayland session is running.
pub fn check_wayland(wayland_display: Option<&str>) -> (r: CheckResult)
    ensures
        r.name@ == "Environment"@,
        (r.passed, r.detail@) == wayland_check(
            match wayland_display {
                Some(v) => Some(v@),
                None => None,
            },
        ),
{
    match wayland_display {
        Some(v) if !v.is_empty() => chk("Environment", true, cat("WAYLAND_DISPLAY=", v)),
        _ => chk(
            "Environment",
            false,
            "WAYLAND_DISPLAY missing; IdleScreen needs a Wayland session".to_string(),
        ),
    }
}

/// Desktops known to offer the idle-notify and layer-shell protocols.
pub open spec fn friendly_desktop(de: Seq<char>) -> bool {
    let lower = to_ascii_lowercase(de);
    ||| contains(lower, "cosmic"@)
    ||| contains(lower, "hyprland"@)
    ||| contains(lower, "sway"@)
    ||| contains(lower, "niri"@)
    ||| contains(lower, "river"@)
    ||| contains(lower, "wayfire"@)
    ||| contains(lower, "kde"@)
    ||| contains(lower, "plasma"@)
}

/// The protocol hint: fails without Wayland; otherwise passes, warning about desktops
/// not known to support the protocols. `de` is `XDG_CURRENT_DESKTOP` (empty if unset).
pub open spec fn protocol_check(de: Seq<char>, wayland_set: bool) -> (bool, Seq<char>) {
    let label = if de.len() == 0 {
        "unknown"@
    } else {
        de
    };
    if !wayland_set {
        (false, "WAYLAND_DISPLAY unset; need ext-idle-notify-v1 and zwlr_layer_shell_v1"@)
    } else if friendly_desktop(de) || de.len() == 0 {
        (true, "WAYLAND_DISPLAY set; DE='"@ + label + "' (need idle-notify + layer-shell)"@)
    } else {
        (
            true,
            "WAYLAND_DISPLAY set; DE='"@ + label
                + "' may lack layer-shell/idle-notify \u{2014} see docs/BOUNDARIES.md"@,
        )
    }
}

fn friendly_desktop_exec(de: &str) -> (r: bool)
    ensures
        r == friendly_desktop(de@),
{
    contains_lowercased(de, "cosmic") || contains_lowercased(de, "hyprland")
        || contains_lowercased(de, "sway") || contains_lowercased(de, "niri")
        || contains_lowercased(de, "river") || contains_lowercased(de, "wayfire")
        || contains_lowercased(de, "kde") || contains_lowercased(de, "plasma")
}

/// Soft protocol and desktop hints.
pub fn check_protocol_hints(de: &str, wayland_set: bool) -> (r: CheckResult)
    ensures
        r.name@ == "Protocols"@,
        (r.passed, r.detail@) == protocol_check(de@, wayland_set),
{
    if !wayland_set {
        return chk(
            "Protocols",
            false,
            "WAYLAND_DISPLAY unset; need ext-idle-notify-v1 and zwlr_layer_shell_v1".to_string(),
        );
    }
    let label = if de.is_empty() {
        "unknown"
    } else {
        de
    };
    if friendly_desktop_exec(de) || de.is_empty() {
        chk(
            "Protocols",
            true,
            cat3("WAYLAND_DISPLAY set; DE='", label, "' (need idle-notify + layer-shell)"),
        )
    } else {
        chk(
            "Protocols",
            true,
            cat3(
                "WAYLAND_DISPLAY set; DE='",
                label,
                "' may lack layer-shell/idle-notify \u{2014} see docs/BOUNDARIES.md",
            ),
        )
    }
}

/// The service check from `systemctl --user is-active` (its output, or the error text
/// when it could not run).
pub open spec fn systemd_check(output: Result<Seq<char>, Seq<char>>) -> (bool, Seq<char>) {
    match output {
        Ok(out) => {
            let status = trim_ws(out);
            if status == "active"@ {
                (true, "active"@)
            } else {
                (false, "status '"@ + status + "'; run systemctl --user start trance-daemon"@)
            }
        },
        Err(e) => (false, "systemctl error: "@ + e),
    }
}

/// Check that the user service is active.
pub fn check_systemd_service(output: Result<&str, &str>) -> (r: CheckResult)
    ensures
        r.name@ == "Systemd Service"@,
        (r.passed, r.detail@) == systemd_check(
            match output {
                Ok(o) => Ok(o@),
                Err(e) => Err(e@),
            },
        ),
{
    match output {
        Ok(out) => {
            let status = trim_str(out);
            if str_eq(status, "active") {
                chk("Systemd Service", true, "active".to_string())
            } else {
                chk(
                    "Systemd Service",
                    false,
                    cat3("status '", status, "'; run systemctl --user start trance-daemon"),
                )
            }
        },
        Err(e) => chk("Systemd Service", false, cat("systemctl error: ", e)),
    }
}

/// What was found about the daemon's pid file.
#[derive(Debug, Clone, Copy, PartialEq, Eq)]
pub enum PidFileProbe {
    /// No pid file.
    Missing,
    /// The file exists but could not be read, or does not hold a pid.
    Unreadable,
    /// The file names this pid, and whether a process with it exists.
    Pid { pid: i32, alive: bool },
}

/// The pid in a pid file's text.
pub fn parse_pid(content: &str) -> (r: Option<i32>)
    ensures
        r == match parse_signed(trim_ws(content@), i32::MIN as int, i32::MAX as int) {
            Some(v) => Some(v as i32),
            None => None::<i32>,
        },
{
    parse_i32(trim_str(content))
}

/// The process check: a live pid passes, a stale one fails, an unreadable pid file
/// passes; without a pid file, a reachable D-Bus service passes.
pub open spec fn pid_check(probe: PidFileProbe, dbus_ok: bool) -> (bool, Seq<char>) {
    match probe {
        PidFileProbe::Pid { pid, alive } => if alive {
            (true, "PID "@ + signed_text(pid as int) + " running"@)
        } else {
            (false, "stale PID "@ + signed_text(pid as int))
        },
        PidFileProbe::Unreadable => (true, "pid file unreadable"@),
        PidFileProbe::Missing => if dbus_ok {
            (true, "missing pid but d-bus ok"@)
        } else {
            (false, "missing pid file"@)
        },
    }
}

/// Check that the daemon process is running.
pub fn check_running_pid(probe: PidFileProbe, dbus_ok: bool) -> (r: CheckResult)
    ensures
        r.name@ == "Process Status"@,
        (r.passed, r.detail@) == pid_check(probe, dbus_ok),
{
    match probe {
        PidFileProbe::Pid { pid, alive } => {
            let p = signed_string(pid);
            if alive {
                chk("Process Status", true, cat3("PID ", p.as_str(), " running"))
            } else {
                chk("Process Status", false, cat("stale PID ", p.as_str()))
            }
        },
        PidFileProbe::Unreadable => chk("Process Status", true, "pid file unreadable".to_string()),
        PidFileProbe::Missing => if dbus_ok {
            chk("Process Status", true, "missing pid but d-bus ok".to_string())
        } else {
            chk("Process Status", false, "missing pid file".to_string())
        },
    }
}

/// What the D-Bus probe found.
#[derive(Debug, Clone)]
pub enum DbusProbe {
    /// The service could not be reached.
    Unreachable,
    /// `GetStatus` failed with this error text.
    StatusError(String),
    /// `GetStatus` answered.
    Status { idle_enabled: bool, idle_timeout_mins: u32, active_saver: String },
}

pub open spec fn bool_word(b: bool) -> Seq<char> {
    if b { "true"@ } else { "false"@ }
}

/// The D-Bus check.
pub open spec fn dbus_check(probe: DbusProbe) -> (bool, Seq<char>) {
    match probe {
        DbusProbe::Unreachable => (false, "cannot connect to io.github.ubermetroid.trance; start trance-daemon"@),
        DbusProbe::StatusError(e) => (false, "GetStatus error: "@ + e@),
        DbusProbe::Status { idle_enabled, idle_timeout_mins, active_saver } => (
            true,
            "connected idle_enabled="@ + bool_word(idle_enabled) + " timeout="@ + decimal_text(
                idle_timeout_mins as nat,
            ) + "m saver='"@ + active_saver@ + "'"@,
        ),
    }
}

fn bool_word_str(b: bool) -> (s: &'static str)
    ensures
        s@ == bool_word(b),
{
    if b { "true" } else { "false" }
}

/// Check that the daemon's D-Bus service answers.
pub fn check_dbus(probe: &DbusProbe) -> (r: CheckResult)
    ensures
        r.name@ == "D-Bus Service"@,
        (r.passed, r.detail@) == dbus_check(*probe),
{
    match probe {
        DbusProbe::Unreachable => chk(
            "D-Bus Service",
            false,
            "cannot connect to io.github.ubermetroid.trance; start trance-daemon".to_string(),
        ),
        DbusProbe::StatusError(e) => chk("D-Bus Service", false, cat("GetStatus error: ", e.as_str())),
        DbusProbe::Status { idle_enabled, idle_timeout_mins, active_saver } => {
            let t = decimal_string(*idle_timeout_mins as u64);
            let d = cat3("connected idle_enabled=", bool_word_str(*idle_enabled), " timeout=").concat(
                t.as_str(),
            ).concat("m saver='").concat(active_saver.as_str()).concat("'");
            chk("D-Bus Service", true, d)
        },
    }
}

/// The report line of a check: `  [✓] name: detail`, or `✗` when it failed.
pub open spec fn check_line(r: CheckResult) -> Seq<char> {
    "  ["@ + (if r.passed { "\u{2713}"@ } else { "\u{2717}"@ }) + "] "@ + r.name@ + ": "@ + r.detail@
}

/// The report line of a check.
pub fn format_check_line(r: &CheckResult) -> (s: String)
    ensures
        s@ == check_line(*r),
{
    let marker = if r.passed {
        "\u{2713}"
    } else {
        "\u{2717}"
    };
    cat3("  [", marker, "] ").concat(r.name).concat(": ").concat(r.detail.as_str())
}

/// Whether every check passed.
pub fn all_passed(results: &Vec<CheckResult>) -> (r: bool)
    ensures
        r == forall|i: int| 0 <= i < results@.len() ==> (#[trigger] results@[i]).passed,
{
    let mut i: usize = 0;
    while i < results.len()
        invariant
            i <= results@.len(),
            forall|j: int| 0 <= j < i ==> (#[trigger] results@[j]).passed,
        decreases results.len() - i,
    {
        if !results[i].passed {
            return false;
        }
        i = i + 1;
    }
    true
}

pub open spec fn every_passed(results: Seq<CheckResult>) -> bool {
    forall|i: int| 0 <= i < results.len() ==> (#[trigger] results[i]).passed
}

/// The check lines, in order.
pub open spec fn check_lines(results: Seq<CheckResult>) -> Seq<Seq<char>>
    decreases results.len(),
{
    if results.len() == 0 {
        Seq::empty()
    } else {
        check_lines(results.drop_last()).push(check_line(results.last()))
    }
}

pub open spec fn doctor_ruler() -> Seq<char> {
    "=========================================="@
}

/// The results block: a ruler, a line per check, a ruler, then the verdict.
pub open spec fn results_lines(results: Seq<CheckResult>) -> Seq<Seq<char>> {
    seq![doctor_ruler()] + check_lines(results) + seq![doctor_ruler()] + if every_passed(results) {
        seq!["Diagnostics complete: ALL SYSTEMS NOMINAL."@]
    } else {
        seq![
            "Diagnostics complete: PROBLEMS DETECTED."@,
            "Diagnostics check failed. Please resolve the issues marked with [\u{2717}]."@,
        ]
    }
}

pub open spec fn line_views(v: Seq<String>) -> Seq<Seq<char>> {
    v.map_values(|l: String| l@)
}

/// The lines of the results block.
pub fn results_report(results: &Vec<CheckResult>) -> (r: Vec<String>)
    ensures
        line_views(r@) == results_lines(results@),
{
    let mut v: Vec<String> = Vec::new();
    v.push("==========================================".to_string());
    let mut i: usize = 0;
    while i < results.len()
        invariant
            i <= results.len(),
            line_views(v@) == seq![doctor_ruler()] + check_lines(results@.take(i as int)),
        decreases results.len() - i,
    {
        let line = format_check_line(&results[i]);
        let ghost old_v = v@;
        v.push(line);
        proof {
            assert(results@.take(i + 1).drop_last() =~= results@.take(i as int));
            assert(results@.take(i + 1).last() == results@[i as int]);
            assert(check_lines(results@.take(i + 1)) == check_lines(results@.take(i as int)).push(
                check_line(results@[i as int]),
            ));
            assert(line_views(v@) =~= line_views(old_v).push(v@.last()@));
        }
        assert(line_views(v@) =~= seq![doctor_ruler()] + check_lines(results@.take(i + 1)));
        i = i + 1;
    }
    assert(results@.take(results.len() as int) =~= results@);
    v.push("==========================================".to_string());
    if all_passed(results) {
        v.push("Diagnostics complete: ALL SYSTEMS NOMINAL.".to_string());
    } else {
        v.push("Diagnostics complete: PROBLEMS DETECTED.".to_string());
        v.push("Diagnostics check failed. Please resolve the issues marked with [\u{2717}].".to_string());
    }
    assert(line_views(v@) =~= results_lines(results@));
    v
}

/// The lowercase hexadecimal digit of `d < 16`.
pub open spec fn hex_digit(d: nat) -> char {
    if d < 10 {
        ((d + 48) as u32) as char
    } else {
        ((d + 87) as u32) as char
    }
}

/// A character inside a JSON string: the quote, the backslash and the control
/// characters escaped, everything else as it is.
pub open spec fn json_escape(c: char) -> Seq<char> {
    if c == '"' {
        seq!['\\', '"']
    } else if c == '\\' {
        seq!['\\', '\\']
    } else if c == '\n' {
        seq!['\\', 'n']
    } else if c == '\r' {
        seq!['\\', 'r']
    } else if c == '\t' {
        seq!['\\', 't']
    } else if (c as u32) == 8 {
        seq!['\\', 'b']
    } else if (c as u32) == 12 {
        seq!['\\', 'f']
    } else if (c as u32) < 32 {
        seq!['\\', 'u', '0', '0', hex_digit(((c as u32) / 16) as nat), hex_digit(((c as u32) % 16) as nat)]
    } else {
        seq![c]
    }
}

/// The characters of `s`, each escaped for a JSON string.
pub open spec fn json_escaped(s: Seq<char>) -> Seq<char>
    decreases s.len(),
{
    if s.len() == 0 {
        Seq::empty()
    } else {
        json_escaped(s.drop_last()) + json_escape(s.last())
    }
}

/// `s` as a JSON string literal.
pub open spec fn json_string(s: Seq<char>) -> Seq<char> {
    seq!['"'] + json_escaped(s) + seq!['"']
}

/// A check as a JSON object: `{"name":…,"passed":…,"detail":…}`.
pub open spec fn check_json(r: CheckResult) -> Seq<char> {
    "{\"name\":"@ + json_string(r.name@) + ",\"passed\":"@ + (if r.passed {
        "true"@
    } else {
        "false"@
    }) + ",\"detail\":"@ + json_string(r.detail@) + "}"@
}

/// The checks' objects, separated by commas.
pub open spec fn checks_json(results: Seq<CheckResult>) -> Seq<char>
    decreases results.len(),
{
    if results.len() == 0 {
        Seq::empty()
    } else if results.len() == 1 {
        check_json(results[0])
    } else {
        checks_json(results.drop_last()) + ","@ + check_json(results.last())
    }
}

/// The results as a JSON array of check objects (`trance doctor --json`).
pub open spec fn results_json_text(results: Seq<CheckResult>) -> Seq<char> {
    "["@ + checks_json(results) + "]"@
}

fn hex_str(d: u32) -> (s: &'static str)
    requires
        d < 16,
    ensures
        s@ == seq![hex_digit(d as nat)],
{
    proof {
        reveal_strlit("0");
        reveal_strlit("1");
        reveal_strlit("2");
        reveal_strlit("3");
        reveal_strlit("4");
        reveal_strlit("5");
        reveal_strlit("6");
        reveal_strlit("7");
        reveal_strlit("8");
        reveal_strlit("9");
        reveal_strlit("a");
        reveal_strlit("b");
        reveal_strlit("c");
        reveal_strlit("d");
        reveal_strlit("e");
        reveal_strlit("f");
    }
    let s = match d {
        0 => "0",
        1 => "1",
        2 => "2",
        3 => "3",
        4 => "4",
        5 => "5",
        6 => "6",
        7 => "7",
        8 => "8",
        9 => "9",
        10 => "a",
        11 => "b",
        12 => "c",
        13 => "d",
        14 => "e",
        _ => "f",
    };
    assert(s@ =~= seq![hex_digit(d as nat)]);
    s
}

/// Append the escaped form of the character `s[i]`.
fn push_json_char(out: &mut String, s: &str, i: usize)
    requires
        i < s@.len(),
    ensures
        final(out)@ == old(out)@ + json_escape(s@[i as int]),
{
    let n = s.unicode_len();
    assert(i < n);
    let c = s.get_char(i);
    proof {
        reveal_strlit("\\\"");
        reveal_strlit("\\\\");
        reveal_strlit("\\n");
        reveal_strlit("\\r");
        reveal_strlit("\\t");
        reveal_strlit("\\b");
        reveal_strlit("\\f");
        reveal_strlit("\\u00");
    }
    if c == '"' {
        out.append("\\\"");
    } else if c == '\\' {
        out.append("\\\\");
    } else if c == '\n' {
        out.append("\\n");
    } else if c == '\r' {
        out.append("\\r");
    } else if c == '\t' {
        out.append("\\t");
    } else if (c as u32) == 8 {
        out.append("\\b");
    } else if (c as u32) == 12 {
        out.append("\\f");
    } else if (c as u32) < 32 {
        out.append("\\u00");
        out.append(hex_str((c as u32) / 16));
        out.append(hex_str((c as u32) % 16));
    } else {
        out.append(s.substring_char(i, i + 1));
        assert(s@.subrange(i as int, i + 1) =~= seq![c]);
    }
    assert(final(out)@ =~= old(out)@ + json_escape(s@[i as int]));
}

/// Append `s` as a JSON string literal.
fn push_json_string(out: &mut String, s: &str)
    ensures
        final(out)@ == old(out)@ + json_string(s@),
{
    proof {
        reveal_strlit("\"");
    }
    let ghost start = out@;
    out.append("\"");
    let n = s.unicode_len();
    let mut i: usize = 0;
    assert(s@.take(0) =~= Seq::<char>::empty());
    while i < n
        invariant
            i <= n,
            n == s@.len(),
            out@ == start + seq!['"'] + json_escaped(s@.take(i as int)),
        decreases n - i,
    {
        push_json_char(out, s, i);
        assert(s@.take(i + 1).drop_last() =~= s@.take(i as int));
        assert(s@.take(i + 1).last() == s@[i as int]);
        assert(out@ =~= start + seq!['"'] + json_escaped(s@.take(i + 1)));
        i = i + 1;
    }
    assert(s@.take(n as int) =~= s@);
    out.append("\"");
    assert(out@ =~= start + json_string(s@));
}

/// Append one check's JSON object.
fn push_check_json(out: &mut String, r: &CheckResult)
    ensures
        final(out)@ == old(out)@ + check_json(*r),
{
    proof {
        reveal_strlit("{\"name\":");
        reveal_strlit(",\"passed\":");
        reveal_strlit(",\"detail\":");
        reveal_strlit("}");
    }
    let ghost start = out@;
    out.append("{\"name\":");
    push_json_string(out, r.name);
    out.append(",\"passed\":");
    if r.passed {
        out.append("true");
    } else {
        out.append("false");
    }
    out.append(",\"detail\":");
    push_json_string(out, r.detail.as_str());
    out.append("}");
    assert(out@ =~= start + check_json(*r));
}

/// The results as a JSON array of `{"name","passed","detail"}` objects, in order.
pub fn results_json(results: &Vec<CheckResult>) -> (r: String)
    ensures
        r@ == results_json_text(results@),
{
    let mut out = String::new();
    out.append("[");
    let mut i: usize = 0;
    assert(results@.take(0) =~= Seq::<CheckResult>::empty());
    while i < results.len()
        invariant
            i <= results@.len(),
            out@ == "["@ + checks_json(results@.take(i as int)),
        decreases results.len() - i,
    {
        let ghost before = out@;
        if i > 0 {
            out.append(",");
        }
        push_check_json(&mut out, &results[i]);
        proof {
            let t = results@.take(i + 1);
            assert(t.drop_last() =~= results@.take(i as int));
            assert(t.last() == results@[i as int]);
            if i == 0 {
                assert(t.len() == 1 && t[0] == results@[0]);
            }
        }
        assert(out@ =~= "["@ + checks_json(results@.take(i + 1)));
        i = i + 1;
    }
    assert(results@.take(results.len() as int) =~= results@);
    out.append("]");
    assert(out@ =~= results_json_text(results@));
    out
}

/// How `trance doctor` ends.
#[derive(Debug, Clone, Copy, PartialEq, Eq)]
pub struct DoctorVerdict {
    /// Print the hint to try `--fix`.
    pub hint_fix: bool,
    /// Exit with failure.
    pub failed: bool,
}

/// A failed check fails the run, with the `--fix` hint unless `--fix` was given.
pub open spec fn verdict_for(results: Seq<CheckResult>, fix: bool) -> DoctorVerdict {
    DoctorVerdict {
        hint_fix: !every_passed(results) && !fix,
        failed: !every_passed(results),
    }
}

/// How `trance doctor` ends, given the check results and whether `--fix` was given.
pub fn doctor_verdict(results: &Vec<CheckResult>, fix: bool) -> (r: DoctorVerdict)
    ensures
        r == verdict_for(results@, fix),
{
    let ok = all_passed(results);
    DoctorVerdict { hint_fix: !ok && !fix, failed: !ok }
}

/// A step of `--fix`.
#[derive(Debug, Clone, Copy, PartialEq, Eq)]
pub enum FixStep {
    /// `systemctl --user daemon-reload`.
    Reload,
    /// `systemctl --user enable --now trance-daemon.service`; when it fails, a restart
    /// follows.
    EnableNow,
}

/// The line reporting a `--fix` step.
pub open spec fn fix_text(step: FixStep, ok: bool) -> Seq<char> {
    match step {
        FixStep::Reload => if ok {
            "  \u{2713} systemctl --user daemon-reload"@
        } else {
            "  ! systemctl daemon-reload returned an error or was missing"@
        },
        FixStep::EnableNow => if ok {
            "  \u{2713} systemctl --user enable --now trance-daemon.service"@
        } else {
            "  ! enable --now failed; attempting restart..."@
        },
    }
}

/// The line reporting a `--fix` step that succeeded (`ok`) or not.
pub fn fix_line(step: FixStep, ok: bool) -> (r: String)
    ensures
        r@ == fix_text(step, ok),
{
    match step {
        FixStep::Reload => if ok {
            "  \u{2713} systemctl --user daemon-reload".to_string()
        } else {
            "  ! systemctl daemon-reload returned an error or was missing".to_string()
        },
        FixStep::EnableNow => if ok {
            "  \u{2713} systemctl --user enable --now trance-daemon.service".to_string()
        } else {
            "  ! enable --now failed; attempting restart...".to_string()
        },
    }
}

} // verus!
