//! The interactive control panel (`trance interactive`): the text it shows and how it
//! reads each answer. Reading the terminal and calling the daemon is the caller's work.

use vstd::prelude::*;

use crate::cli_config::{arg_views, or_word, SettingsReport};
use crate::text::{cat, cat3, decimal_string, decimal_text, parse_unsigned, parse_usize, str_eq, trim_str, trim_ws};

verus! {

broadcast use vstd::string::group_string_axioms;

/// The ruler above and below the panel's title.
pub open spec fn ruler() -> Seq<char> {
    "=========================================="@
}

/// The panel, from the blank line before it to the prompt for an option.
pub open spec fn panel_text(s: SettingsReport) -> Seq<char> {
    "\n"@ + ruler() + "\n"@
        + "Trance Interactive Control Panel\n"@
        + ruler() + "\n"@
        + " 1. Toggle Idle Activation (Current: "@ + (if s.idle_enabled { "ENABLED"@ } else { "DISABLED"@ }) + ")\n"@
        + " 2. Set Idle Timeout       (Current: "@ + decimal_text(s.idle_timeout_mins as nat) + " mins)\n"@
        + " 3. Select Active Saver    (Current: "@ + or_word(s.active_saver@, "random"@) + ")\n"@
        + " 4. Preview a Screensaver\n"@
        + " 5. Toggle FPS Overlay     (Current: "@ + (if s.show_fps_overlay { "ON"@ } else { "OFF"@ }) + ")\n"@
        + " 6. Stop Current Preview / Presentation\n"@
        + " 7. Exit\n"@
        + "\nSelect an option (1-7): "@
}

/// The panel for the daemon's current settings.
pub fn panel(s: &SettingsReport) -> (r: String)
    ensures
        r@ == panel_text(*s),
{
    let mut t = String::new();
    t.append("\n==========================================\n");
    t.append("Trance Interactive Control Panel\n");
    t.append("==========================================\n");
    t.append(" 1. Toggle Idle Activation (Current: ");
    t.append(if s.idle_enabled { "ENABLED" } else { "DISABLED" });
    t.append(")\n");
    t.append(" 2. Set Idle Timeout       (Current: ");
    let mins = decimal_string(s.idle_timeout_mins as u64);
    t.append(mins.as_str());
    t.append(" mins)\n");
    t.append(" 3. Select Active Saver    (Current: ");
    t.append(if s.active_saver.as_str().is_empty() { "random" } else { s.active_saver.as_str() });
    t.append(")\n");
    t.append(" 4. Preview a Screensaver\n");
    t.append(" 5. Toggle FPS Overlay     (Current: ");
    t.append(if s.show_fps_overlay { "ON" } else { "OFF" });
    t.append(")\n");
    t.append(" 6. Stop Current Preview / Presentation\n");
    t.append(" 7. Exit\n");
    t.append("\nSelect an option (1-7): ");
    proof {
        reveal_strlit("\n==========================================\n");
        reveal_strlit("\n");
        reveal_strlit("==========================================");
        reveal_strlit("==========================================\n");
    }
    assert("\n==========================================\n"@ =~= "\n"@ + ruler() + "\n"@);
    assert("==========================================\n"@ =~= ruler() + "\n"@);
    assert(t@ =~= panel_text(*s));
    t
}

/// A panel option.
#[derive(Debug, Clone, Copy, PartialEq, Eq)]
pub enum MenuChoice {
    ToggleIdle,
    SetTimeout,
    SelectSaver,
    Preview,
    ToggleFpsOverlay,
    Stop,
    Exit,
    /// Anything else: the panel says so and shows itself again.
    Invalid,
}

/// The option an answer (trimmed) selects.
pub open spec fn choice_of(answer: Seq<char>) -> MenuChoice {
    let a = trim_ws(answer);
    if a == "1"@ {
        MenuChoice::ToggleIdle
    } else if a == "2"@ {
        MenuChoice::SetTimeout
    } else if a == "3"@ {
        MenuChoice::SelectSaver
    } else if a == "4"@ {
        MenuChoice::Preview
    } else if a == "5"@ {
        MenuChoice::ToggleFpsOverlay
    } else if a == "6"@ {
        MenuChoice::Stop
    } else if a == "7"@ {
        MenuChoice::Exit
    } else {
        MenuChoice::Invalid
    }
}

/// The option an answer selects.
pub fn menu_choice(answer: &str) -> (r: MenuChoice)
    ensures
        r == choice_of(answer@),
{
    let a = trim_str(answer);
    if str_eq(a, "1") {
        MenuChoice::ToggleIdle
    } else if str_eq(a, "2") {
        MenuChoice::SetTimeout
    } else if str_eq(a, "3") {
        MenuChoice::SelectSaver
    } else if str_eq(a, "4") {
        MenuChoice::Preview
    } else if str_eq(a, "5") {
        MenuChoice::ToggleFpsOverlay
    } else if str_eq(a, "6") {
        MenuChoice::Stop
    } else if str_eq(a, "7") {
        MenuChoice::Exit
    } else {
        MenuChoice::Invalid
    }
}

/// A call an option makes of the daemon at once, without asking anything further.
#[derive(Debug, Clone, Copy, PartialEq, Eq)]
pub enum PanelCall {
    Enable,
    Disable,
    SetShowFpsOverlay(bool),
    StopPreview,
}

/// The call an option makes at once: the idle toggle disables activation when it is on
/// and enables it otherwise, the overlay toggle asks for the opposite of its current
/// state, and stop stops the preview. The other options make none.
pub open spec fn panel_call(c: MenuChoice, s: SettingsReport) -> Option<PanelCall> {
    match c {
        MenuChoice::ToggleIdle => if s.idle_enabled {
            Some(PanelCall::Disable)
        } else {
            Some(PanelCall::Enable)
        },
        MenuChoice::ToggleFpsOverlay => Some(PanelCall::SetShowFpsOverlay(!s.show_fps_overlay)),
        MenuChoice::Stop => Some(PanelCall::StopPreview),
        _ => None,
    }
}

/// The call an option makes at once, given the daemon's current settings.
pub fn immediate_call(c: MenuChoice, s: &SettingsReport) -> (r: Option<PanelCall>)
    ensures
        r == panel_call(c, *s),
{
    match c {
        MenuChoice::ToggleIdle => if s.idle_enabled {
            Some(PanelCall::Disable)
        } else {
            Some(PanelCall::Enable)
        },
        MenuChoice::ToggleFpsOverlay => Some(PanelCall::SetShowFpsOverlay(!s.show_fps_overlay)),
        MenuChoice::Stop => Some(PanelCall::StopPreview),
        _ => None,
    }
}

/// The message for an option that needs no further answer; toggles depend on the
/// setting before the change.
pub open spec fn choice_message(c: MenuChoice, s: SettingsReport) -> Seq<char> {
    match c {
        MenuChoice::ToggleIdle => if s.idle_enabled {
            "Disabled screensaver activation."@
        } else {
            "Enabled screensaver activation."@
        },
        MenuChoice::ToggleFpsOverlay => if !s.show_fps_overlay {
            "FPS overlay toggled to ON."@
        } else {
            "FPS overlay toggled to OFF."@
        },
        MenuChoice::Stop => "Presentation stopped."@,
        MenuChoice::Exit => "Exiting control panel."@,
        MenuChoice::Invalid => "Invalid selection. Please enter a number 1-7."@,
        _ => Seq::empty(),
    }
}

/// The message printed after an option that needs no further answer (empty for the
/// others).
pub fn choice_line(c: MenuChoice, s: &SettingsReport) -> (r: String)
    ensures
        r@ == choice_message(c, *s),
{
    match c {
        MenuChoice::ToggleIdle => if s.idle_enabled {
            "Disabled screensaver activation.".to_string()
        } else {
            "Enabled screensaver activation.".to_string()
        },
        MenuChoice::ToggleFpsOverlay => if !s.show_fps_overlay {
            "FPS overlay toggled to ON.".to_string()
        } else {
            "FPS overlay toggled to OFF.".to_string()
        },
        MenuChoice::Stop => "Presentation stopped.".to_string(),
        MenuChoice::Exit => "Exiting control panel.".to_string(),
        MenuChoice::Invalid => "Invalid selection. Please enter a number 1-7.".to_string(),
        _ => String::new(),
    }
}

/// An answer to the timeout prompt.
#[derive(Debug, Clone, Copy, PartialEq, Eq)]
pub enum TimeoutAnswer {
    /// Set the timeout to this many minutes.
    Minutes(u32),
    /// A number outside `1..=240`.
    OutOfRange,
    /// Not a number.
    Invalid,
}

/// How an answer (trimmed) to the timeout prompt reads.
pub open spec fn timeout_answer_of(answer: Seq<char>) -> TimeoutAnswer {
    match parse_unsigned(trim_ws(answer), u32::MAX as nat) {
        Some(n) => if 1 <= n <= 240 {
            TimeoutAnswer::Minutes(n as u32)
        } else {
            TimeoutAnswer::OutOfRange
        },
        None => TimeoutAnswer::Invalid,
    }
}

/// Read an answer to the timeout prompt.
pub fn timeout_answer(answer: &str) -> (r: TimeoutAnswer)
    ensures
        r == timeout_answer_of(answer@),
{
    match crate::text::parse_u32(trim_str(answer)) {
        Some(n) => if 1 <= n && n <= 240 {
            TimeoutAnswer::Minutes(n)
        } else {
            TimeoutAnswer::OutOfRange
        },
        None => TimeoutAnswer::Invalid,
    }
}

/// The message for an answer to the timeout prompt (after the daemon took a new one).
pub open spec fn timeout_message(a: TimeoutAnswer) -> Seq<char> {
    match a {
        TimeoutAnswer::Minutes(m) => "Timeout updated to "@ + decimal_text(m as nat) + " minutes."@,
        TimeoutAnswer::OutOfRange => "Invalid range (must be 1-240)."@,
        TimeoutAnswer::Invalid => "Invalid input."@,
    }
}

/// The message for an answer to the timeout prompt.
pub fn timeout_line(a: TimeoutAnswer) -> (r: String)
    ensures
        r@ == timeout_message(a),
{
    match a {
        TimeoutAnswer::Minutes(m) => {
            let n = decimal_string(m as u64);
            cat3("Timeout updated to ", n.as_str(), " minutes.")
        },
        TimeoutAnswer::OutOfRange => "Invalid range (must be 1-240).".to_string(),
        TimeoutAnswer::Invalid => "Invalid input.".to_string(),
    }
}

/// `  1. name` lines, one per saver, numbered from one.
pub open spec fn numbered(names: Seq<Seq<char>>) -> Seq<char>
    decreases names.len(),
{
    if names.len() == 0 {
        Seq::empty()
    } else {
        numbered(names.drop_last()) + "  "@ + decimal_text(names.len()) + ". "@ + names.last() + "\n"@
    }
}

fn numbered_list(names: &Vec<String>) -> (r: String)
    ensures
        r@ == numbered(arg_views(names@)),
{
    let ghost v = arg_views(names@);
    let mut t = String::new();
    let mut i: usize = 0;
    while i < names.len()
        invariant
            i <= names.len(),
            v == arg_views(names@),
            t@ == numbered(v.take(i as int)),
        decreases names.len() - i,
    {
        let n = decimal_string((i + 1) as u64);
        t.append("  ");
        t.append(n.as_str());
        t.append(". ");
        t.append(names[i].as_str());
        t.append("\n");
        proof {
            let next = v.take(i + 1);
            assert(next.drop_last() =~= v.take(i as int));
            assert(next.last() == names@[i as int]@);
            reveal_strlit("  ");
        }
        i = i + 1;
    }
    assert(v.take(names.len() as int) =~= v);
    t
}

/// The saver menu of option 3, with its prompt.
pub open spec fn saver_menu_text(names: Seq<Seq<char>>) -> Seq<char> {
    "\nAvailable Screensavers:\n"@ + "  0. random (default)\n"@ + numbered(names)
        + "Select a saver (0-"@ + decimal_text(names.len()) + "): "@
}

/// The saver menu of option 3.
pub fn saver_menu(names: &Vec<String>) -> (r: String)
    ensures
        r@ == saver_menu_text(arg_views(names@)),
{
    let mut t = "\nAvailable Screensavers:\n".to_string();
    t.append("  0. random (default)\n");
    let list = numbered_list(names);
    t.append(list.as_str());
    t.append("Select a saver (0-");
    let n = decimal_string(names.len() as u64);
    t.append(n.as_str());
    t.append("): ");
    t
}

/// The preview menu of option 4, with its prompt.
pub open spec fn preview_menu_text(names: Seq<Seq<char>>) -> Seq<char> {
    "\nChoose screensaver to preview:\n"@ + numbered(names)
        + "Select a screensaver (1-"@ + decimal_text(names.len()) + "): "@
}

/// The preview menu of option 4.
pub fn preview_menu(names: &Vec<String>) -> (r: String)
    ensures
        r@ == preview_menu_text(arg_views(names@)),
{
    let mut t = "\nChoose screensaver to preview:\n".to_string();
    let list = numbered_list(names);
    t.append(list.as_str());
    t.append("Select a screensaver (1-");
    let n = decimal_string(names.len() as u64);
    t.append(n.as_str());
    t.append("): ");
    t
}

/// An answer to the saver or preview menu.
#[derive(Debug, Clone, PartialEq, Eq)]
pub enum SaverAnswer {
    /// Random saver (the saver menu's `0`).
    Random,
    /// The saver listed under the number given.
    Named(String),
    /// A number not in the menu: the panel says so.
    OutOfRange,
    /// Not a number: the panel goes on without a word.
    Unreadable,
}

/// The mathematical value of an answer.
pub enum SaverAnswerView {
    Random,
    Named(Seq<char>),
    OutOfRange,
    Unreadable,
}

impl View for SaverAnswer {
    type V = SaverAnswerView;

    open spec fn view(&self) -> SaverAnswerView {
        match self {
            SaverAnswer::Random => SaverAnswerView::Random,
            SaverAnswer::Named(n) => SaverAnswerView::Named(n@),
            SaverAnswer::OutOfRange => SaverAnswerView::OutOfRange,
            SaverAnswer::Unreadable => SaverAnswerView::Unreadable,
        }
    }
}

/// How an answer (trimmed) to a menu of `names` reads; `zero_is_random` for the saver
/// menu, which offers `0` for random.
pub open spec fn saver_answer_of(answer: Seq<char>, names: Seq<Seq<char>>, zero_is_random: bool) -> SaverAnswerView {
    match parse_unsigned(trim_ws(answer), usize::MAX as nat) {
        Some(i) => if i == 0 && zero_is_random {
            SaverAnswerView::Random
        } else if 1 <= i <= names.len() {
            SaverAnswerView::Named(names[i - 1])
        } else {
            SaverAnswerView::OutOfRange
        },
        None => SaverAnswerView::Unreadable,
    }
}

/// Read an answer to the saver menu (`zero_is_random`) or the preview menu.
pub fn saver_answer(answer: &str, names: &Vec<String>, zero_is_random: bool) -> (r: SaverAnswer)
    ensures
        r@ == saver_answer_of(answer@, arg_views(names@), zero_is_random),
{
    match parse_usize(trim_str(answer)) {
        Some(i) => if i == 0 && zero_is_random {
            SaverAnswer::Random
        } else if 1 <= i && i <= names.len() {
            assert(arg_views(names@)[i - 1] == names@[i - 1]@);
            SaverAnswer::Named(names[i - 1].clone())
        } else {
            SaverAnswer::OutOfRange
        },
        None => SaverAnswer::Unreadable,
    }
}

/// The message for an answer to the saver menu (after the daemon took the choice).
pub open spec fn saver_message(a: SaverAnswerView) -> Seq<char> {
    match a {
        SaverAnswerView::Random => "Active screensaver set to: random"@,
        SaverAnswerView::Named(n) => "Active screensaver set to: "@ + n,
        SaverAnswerView::OutOfRange => "Invalid choice."@,
        SaverAnswerView::Unreadable => Seq::empty(),
    }
}

/// The message for an answer to the saver menu; empty when nothing is printed.
pub fn saver_line(a: &SaverAnswer) -> (r: String)
    ensures
        r@ == saver_message(a@),
{
    match a {
        SaverAnswer::Random => "Active screensaver set to: random".to_string(),
        SaverAnswer::Named(n) => cat("Active screensaver set to: ", n.as_str()),
        SaverAnswer::OutOfRange => "Invalid choice.".to_string(),
        SaverAnswer::Unreadable => String::new(),
    }
}

/// The message for an answer to the preview menu (after the daemon took the choice).
pub open spec fn preview_message(a: SaverAnswerView) -> Seq<char> {
    match a {
        SaverAnswerView::Named(n) => "Starting preview of "@ + n + "..."@,
        SaverAnswerView::OutOfRange => "Invalid choice."@,
        _ => Seq::empty(),
    }
}

/// The message for an answer to the preview menu; empty when nothing is printed.
pub fn preview_line(a: &SaverAnswer) -> (r: String)
    ensures
        r@ == preview_message(a@),
{
    match a {
        SaverAnswer::Named(n) => cat3("Starting preview of ", n.as_str(), "..."),
        SaverAnswer::OutOfRange => "Invalid choice.".to_string(),
        _ => String::new(),
    }
}

} // verus!
