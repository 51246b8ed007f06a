//! `trance config get|set|list`: reading the arguments, checking a new value, and the
//! text shown for the daemon's settings.

use vstd::prelude::*;

use crate::commands::{command_result, DaemonCommand};
use crate::config::ConfigView;
use crate::saver::SaverCatalog;
use crate::scale::{in_scale_range, scale_in_range};
use crate::text::{
    cat, cat3, decimal_string, decimal_text, is_digit, lemma_decimal_text, parse_bool, parse_bool_str, parse_u32,
    parse_unsigned, str_eq,
};

verus! {

broadcast use vstd::string::group_string_axioms;

/// A setting the command line can read or change.
#[derive(Debug, Clone, Copy, PartialEq, Eq)]
pub enum ConfigKey {
    IdleEnabled,
    IdleTimeoutMins,
    ActiveSaver,
    GpuEnabled,
    ShowFpsOverlay,
    RenderScale,
}

/// The key a name stands for: the setting's own name or its short alias.
pub open spec fn key_of(name: Seq<char>) -> Option<ConfigKey> {
    if name == "idle_enabled"@ || name == "enabled"@ {
        Some(ConfigKey::IdleEnabled)
    } else if name == "idle_timeout_mins"@ || name == "timeout"@ {
        Some(ConfigKey::IdleTimeoutMins)
    } else if name == "active_saver"@ || name == "saver"@ {
        Some(ConfigKey::ActiveSaver)
    } else if name == "gpu_enabled"@ || name == "gpu"@ {
        Some(ConfigKey::GpuEnabled)
    } else if name == "show_fps_overlay"@ || name == "fps"@ {
        Some(ConfigKey::ShowFpsOverlay)
    } else if name == "render_scale"@ || name == "scale"@ {
        Some(ConfigKey::RenderScale)
    } else {
        None
    }
}

/// The key a name stands for.
pub fn config_key(name: &str) -> (r: Option<ConfigKey>)
    ensures
        r == key_of(name@),
{
    if str_eq(name, "idle_enabled") || str_eq(name, "enabled") {
        Some(ConfigKey::IdleEnabled)
    } else if str_eq(name, "idle_timeout_mins") || str_eq(name, "timeout") {
        Some(ConfigKey::IdleTimeoutMins)
    } else if str_eq(name, "active_saver") || str_eq(name, "saver") {
        Some(ConfigKey::ActiveSaver)
    } else if str_eq(name, "gpu_enabled") || str_eq(name, "gpu") {
        Some(ConfigKey::GpuEnabled)
    } else if str_eq(name, "show_fps_overlay") || str_eq(name, "fps") {
        Some(ConfigKey::ShowFpsOverlay)
    } else if str_eq(name, "render_scale") || str_eq(name, "scale") {
        Some(ConfigKey::RenderScale)
    } else {
        None
    }
}

/// The change a `config set` asks of the daemon.
#[derive(Debug, Clone, PartialEq, Eq)]
pub enum ConfigChange {
    /// Enable (`true`) or disable idle presentation.
    IdleEnabled(bool),
    SetTimeout(u32),
    /// The saver name; empty for random.
    SetSaver(String),
    SetGpuEnabled(bool),
    SetShowFpsOverlay(bool),
    /// Binary32 bits of the scale; zero restores the default.
    SetRenderScale(u32),
}

/// The mathematical value of a change.
pub enum ChangeView {
    IdleEnabled(bool),
    SetTimeout(u32),
    SetSaver(Seq<char>),
    SetGpuEnabled(bool),
    SetShowFpsOverlay(bool),
    SetRenderScale(u32),
}

impl View for ConfigChange {
    type V = ChangeView;

    open spec fn view(&self) -> ChangeView {
        match self {
            ConfigChange::IdleEnabled(b) => ChangeView::IdleEnabled(*b),
            ConfigChange::SetTimeout(n) => ChangeView::SetTimeout(*n),
            ConfigChange::SetSaver(s) => ChangeView::SetSaver(s@),
            ConfigChange::SetGpuEnabled(b) => ChangeView::SetGpuEnabled(*b),
            ConfigChange::SetShowFpsOverlay(b) => ChangeView::SetShowFpsOverlay(*b),
            ConfigChange::SetRenderScale(b) => ChangeView::SetRenderScale(*b),
        }
    }
}

/// What `trance config` was asked to do.
#[derive(Debug, Clone, PartialEq, Eq)]
pub enum ConfigRequest {
    /// Print every setting.
    List,
    /// Print the setting of this name (resolved once the status is at hand).
    Get(String),
    /// Send the change, then report `key` set to `value`.
    Update { key: String, value: String, change: ConfigChange },
}

/// The mathematical value of a request.
pub enum RequestView {
    List,
    Get(Seq<char>),
    Update { key: Seq<char>, value: Seq<char>, change: ChangeView },
}

impl View for ConfigRequest {
    type V = RequestView;

    open spec fn view(&self) -> RequestView {
        match self {
            ConfigRequest::List => RequestView::List,
            ConfigRequest::Get(k) => RequestView::Get(k@),
            ConfigRequest::Update { key, value, change } => RequestView::Update {
                key: key@,
                value: value@,
                change: change@,
            },
        }
    }
}

/// A binary32 value is zero (either sign).
pub open spec fn is_zero_bits(b: u32) -> bool {
    b == 0 || b == 0x8000_0000u32
}

/// The change for `key` set to `value`, or the message refusing the value.
/// `value_bits` is `value` read as an `f32` (its bits), when it reads as one.
pub open spec fn change_for(key: ConfigKey, value: Seq<char>, value_bits: Option<u32>) -> Result<ChangeView, Seq<char>> {
    match key {
        ConfigKey::IdleEnabled => match parse_bool(value) {
            Some(b) => Ok(ChangeView::IdleEnabled(b)),
            None => Err("value must be true or false"@),
        },
        ConfigKey::IdleTimeoutMins => match parse_unsigned(value, u32::MAX as nat) {
            Some(n) => if 1 <= n <= 240 {
                Ok(ChangeView::SetTimeout(n as u32))
            } else {
                Err("timeout must be between 1 and 240 minutes"@)
            },
            None => Err("value must be an integer (1\u{2013}240)"@),
        },
        ConfigKey::ActiveSaver => Ok(ChangeView::SetSaver(
            if value == "random"@ || value == "none"@ {
                Seq::empty()
            } else {
                value
            },
        )),
        ConfigKey::GpuEnabled => match parse_bool(value) {
            Some(b) => Ok(ChangeView::SetGpuEnabled(b)),
            None => Err("value must be true or false"@),
        },
        ConfigKey::ShowFpsOverlay => match parse_bool(value) {
            Some(b) => Ok(ChangeView::SetShowFpsOverlay(b)),
            None => Err("value must be true or false"@),
        },
        ConfigKey::RenderScale => {
            let bits = if value == "default"@ {
                Some(0u32)
            } else {
                value_bits
            };
            match bits {
                Some(b) => if is_zero_bits(b) || in_scale_range(b) {
                    Ok(ChangeView::SetRenderScale(b))
                } else {
                    Err("scale must be between 0.25 and 1.0, or 'default'"@)
                },
                None => Err("value must be between 0.25 and 1.0, or 'default'"@),
            }
        },
    }
}

/// What `trance config` with these arguments asks, or the message refusing them.
pub open spec fn config_request(args: Seq<Seq<char>>, value_bits: Option<u32>) -> Result<RequestView, Seq<char>> {
    if args.len() == 0 {
        Err("usage: trance config get <key> | set <key> <val> | list"@)
    } else if args[0] == "list"@ {
        Ok(RequestView::List)
    } else if args[0] == "get"@ {
        if args.len() < 2 {
            Err("usage: trance config get <key>"@)
        } else {
            Ok(RequestView::Get(args[1]))
        }
    } else if args[0] == "set"@ {
        if args.len() < 3 {
            Err("usage: trance config set <key> <value>"@)
        } else {
            match key_of(args[1]) {
                None => Err("unknown configuration key: "@ + args[1]),
                Some(k) => match change_for(k, args[2], value_bits) {
                    Ok(c) => Ok(RequestView::Update { key: args[1], value: args[2], change: c }),
                    Err(e) => Err(e),
                },
            }
        }
    } else {
        Err("unknown config action; use get, set, or list"@)
    }
}

pub open spec fn arg_views(args: Seq<String>) -> Seq<Seq<char>> {
    args.map_values(|a: String| a@)
}

pub open spec fn result_view(r: Result<ConfigRequest, String>) -> Result<RequestView, Seq<char>> {
    match r {
        Ok(q) => Ok(q@),
        Err(e) => Err(e@),
    }
}

fn change_of(key: ConfigKey, value: &str, value_bits: Option<u32>) -> (r: Result<ConfigChange, String>)
    ensures
        match r {
            Ok(c) => change_for(key, value@, value_bits) == Ok::<ChangeView, Seq<char>>(c@),
            Err(e) => change_for(key, value@, value_bits) == Err::<ChangeView, Seq<char>>(e@),
        },
{
    match key {
        ConfigKey::IdleEnabled => match parse_bool_str(value) {
            Some(b) => Ok(ConfigChange::IdleEnabled(b)),
            None => Err("value must be true or false".to_string()),
        },
        ConfigKey::IdleTimeoutMins => match parse_u32(value) {
            Some(n) => if 1 <= n && n <= 240 {
                Ok(ConfigChange::SetTimeout(n))
            } else {
                Err("timeout must be between 1 and 240 minutes".to_string())
            },
            None => Err("value must be an integer (1\u{2013}240)".to_string()),
        },
        ConfigKey::ActiveSaver => {
            if str_eq(value, "random") || str_eq(value, "none") {
                Ok(ConfigChange::SetSaver(String::new()))
            } else {
                Ok(ConfigChange::SetSaver(value.to_string()))
            }
        },
        ConfigKey::GpuEnabled => match parse_bool_str(value) {
            Some(b) => Ok(ConfigChange::SetGpuEnabled(b)),
            None => Err("value must be true or false".to_string()),
        },
        ConfigKey::ShowFpsOverlay => match parse_bool_str(value) {
            Some(b) => Ok(ConfigChange::SetShowFpsOverlay(b)),
            None => Err("value must be true or false".to_string()),
        },
        ConfigKey::RenderScale => {
            let bits = if str_eq(value, "default") {
                Some(0u32)
            } else {
                value_bits
            };
            match bits {
                Some(b) => if b == 0 || b == 0x8000_0000u32 || scale_in_range(b) {
                    Ok(ConfigChange::SetRenderScale(b))
                } else {
                    Err("scale must be between 0.25 and 1.0, or 'default'".to_string())
                },
                None => Err("value must be between 0.25 and 1.0, or 'default'".to_string()),
            }
        },
    }
}

/// Read the arguments of `trance config`. `value_bits` is the value argument (the
/// third) read as an `f32`, when there is one and it reads as one; only `set
/// render_scale` uses it.
pub fn parse_config_args(args: &Vec<String>, value_bits: Option<u32>) -> (r: Result<ConfigRequest, String>)
    ensures
        result_view(r) == config_request(arg_views(args@), value_bits),
{
    let ghost a = arg_views(args@);
    if args.len() == 0 {
        return Err("usage: trance config get <key> | set <key> <val> | list".to_string());
    }
    assert(a[0] == args@[0]@);
    let action = args[0].as_str();
    if str_eq(action, "list") {
        Ok(ConfigRequest::List)
    } else if str_eq(action, "get") {
        if args.len() < 2 {
            Err("usage: trance config get <key>".to_string())
        } else {
            assert(a[1] == args@[1]@);
            Ok(ConfigRequest::Get(args[1].clone()))
        }
    } else if str_eq(action, "set") {
        if args.len() < 3 {
            Err("usage: trance config set <key> <value>".to_string())
        } else {
            assert(a[1] == args@[1]@);
            assert(a[2] == args@[2]@);
            let key = args[1].as_str();
            let value = args[2].as_str();
            match config_key(key) {
                None => Err(cat("unknown configuration key: ", key)),
                Some(k) => match change_of(k, value, value_bits) {
                    Ok(c) => Ok(ConfigRequest::Update { key: key.to_string(), value: value.to_string(), change: c }),
                    Err(e) => Err(e),
                },
            }
        }
    } else {
        Err("unknown config action; use get, set, or list".to_string())
    }
}

/// The settings the daemon reports, as the command line shows them.
#[derive(Debug, Clone)]
pub struct SettingsReport {
    pub idle_enabled: bool,
    pub idle_timeout_mins: u32,
    /// Empty for random.
    pub active_saver: String,
    pub gpu_enabled: bool,
    pub show_fps_overlay: bool,
    /// The scale as text; empty for the default.
    pub render_scale: String,
}

/// `true` or `false`.
pub open spec fn bool_word(b: bool) -> Seq<char> {
    if b {
        "true"@
    } else {
        "false"@
    }
}

/// `text`, or `fallback` when it is empty.
pub open spec fn or_word(text: Seq<char>, fallback: Seq<char>) -> Seq<char> {
    if text.len() == 0 {
        fallback
    } else {
        text
    }
}

/// The value shown for a key.
pub open spec fn shown_value(key: ConfigKey, s: SettingsReport) -> Seq<char> {
    match key {
        ConfigKey::IdleEnabled => bool_word(s.idle_enabled),
        ConfigKey::IdleTimeoutMins => decimal_text(s.idle_timeout_mins as nat),
        ConfigKey::ActiveSaver => or_word(s.active_saver@, "random"@),
        ConfigKey::GpuEnabled => bool_word(s.gpu_enabled),
        ConfigKey::ShowFpsOverlay => bool_word(s.show_fps_overlay),
        ConfigKey::RenderScale => or_word(s.render_scale@, "default"@),
    }
}

fn bool_text(b: bool) -> (r: String)
    ensures
        r@ == bool_word(b),
{
    if b {
        "true".to_string()
    } else {
        "false".to_string()
    }
}

fn text_or(text: &str, fallback: &str) -> (r: String)
    ensures
        r@ == or_word(text@, fallback@),
{
    if text.is_empty() {
        fallback.to_string()
    } else {
        text.to_string()
    }
}

/// The value shown for a key.
pub fn shown_setting(key: ConfigKey, s: &SettingsReport) -> (r: String)
    ensures
        r@ == shown_value(key, *s),
{
    match key {
        ConfigKey::IdleEnabled => bool_text(s.idle_enabled),
        ConfigKey::IdleTimeoutMins => decimal_string(s.idle_timeout_mins as u64),
        ConfigKey::ActiveSaver => text_or(s.active_saver.as_str(), "random"),
        ConfigKey::GpuEnabled => bool_text(s.gpu_enabled),
        ConfigKey::ShowFpsOverlay => bool_text(s.show_fps_overlay),
        ConfigKey::RenderScale => text_or(s.render_scale.as_str(), "default"),
    }
}

/// The line `config get <name>` prints, or the message for an unknown name.
pub fn config_get_line(name: &str, s: &SettingsReport) -> (r: Result<String, String>)
    ensures
        match key_of(name@) {
            Some(k) => r matches Ok(line) && line@ == shown_value(k, *s),
            None => r matches Err(e) && e@ == "unknown configuration key: "@ + name@,
        },
{
    match config_key(name) {
        Some(k) => Ok(shown_setting(k, s)),
        None => Err(cat("unknown configuration key: ", name)),
    }
}

/// The lines `config list` prints, one per setting.
pub open spec fn list_lines(s: SettingsReport) -> Seq<Seq<char>> {
    seq![
        "idle_enabled:      "@ + shown_value(ConfigKey::IdleEnabled, s),
        "idle_timeout_mins: "@ + shown_value(ConfigKey::IdleTimeoutMins, s),
        "active_saver:      "@ + shown_value(ConfigKey::ActiveSaver, s),
        "gpu_enabled:       "@ + shown_value(ConfigKey::GpuEnabled, s),
        "show_fps_overlay:  "@ + shown_value(ConfigKey::ShowFpsOverlay, s),
        "render_scale:      "@ + shown_value(ConfigKey::RenderScale, s),
    ]
}

fn labelled(label: &str, key: ConfigKey, s: &SettingsReport) -> (r: String)
    ensures
        r@ == label@ + shown_value(key, *s),
{
    let v = shown_setting(key, s);
    cat(label, v.as_str())
}

/// The lines `config list` prints.
pub fn config_list_lines(s: &SettingsReport) -> (r: Vec<String>)
    ensures
        arg_views(r@) == list_lines(*s),
{
    let mut v: Vec<String> = Vec::new();
    v.push(labelled("idle_enabled:      ", ConfigKey::IdleEnabled, s));
    v.push(labelled("idle_timeout_mins: ", ConfigKey::IdleTimeoutMins, s));
    v.push(labelled("active_saver:      ", ConfigKey::ActiveSaver, s));
    v.push(labelled("gpu_enabled:       ", ConfigKey::GpuEnabled, s));
    v.push(labelled("show_fps_overlay:  ", ConfigKey::ShowFpsOverlay, s));
    v.push(labelled("render_scale:      ", ConfigKey::RenderScale, s));
    assert(arg_views(v@) =~= list_lines(*s));
    v
}

/// The line printed after a successful `config set`.
pub fn set_done_line(key: &str, value: &str) -> (r: String)
    ensures
        r@ == "Set config key '"@ + key@ + "' to '"@ + value@ + "' successfully."@,
{
    let a = cat3("Set config key '", key, "' to '");
    let b = cat(a.as_str(), value);
    cat(b.as_str(), "' successfully.")
}

/// The command line only sends the daemon timeouts and render scales that the daemon
/// accepts: whatever the arguments, a `config set` of either yields a command the
/// daemon's validation lets through, on any settings.
pub proof fn law_cli_values_pass_daemon_checks(
    args: Seq<Seq<char>>,
    value_bits: Option<u32>,
    c: ConfigView,
    catalog: SaverCatalog,
)
    ensures
        config_request(args, value_bits) matches Ok(RequestView::Update { change: ChangeView::SetTimeout(n), .. })
            ==> command_result(c, DaemonCommand::SetTimeout(n), catalog) is Ok,
        config_request(args, value_bits) matches Ok(RequestView::Update { change: ChangeView::SetRenderScale(b), .. })
            ==> command_result(c, DaemonCommand::SetRenderScale(Some(b)), catalog) is Ok,
{
}

/// `trance config set` of a switch passes on the value given: `true` turns the switch on
/// and `false` turns it off, for the FPS overlay (`fps`, `show_fps_overlay`), idle
/// activation (`enabled`, `idle_enabled`) and the GPU switch (`gpu`, `gpu_enabled`).
pub proof fn law_config_set_switch_carries_value(args: Seq<Seq<char>>, value_bits: Option<u32>)
    ensures
        args.len() >= 3 && args[0] == "set"@ && (args[2] == "true"@ || args[2] == "false"@) ==> {
            let on = args[2] == "true"@;
            &&& (args[1] == "fps"@ || args[1] == "show_fps_overlay"@) ==> config_request(args, value_bits) == Ok::<
                RequestView,
                Seq<char>,
            >(RequestView::Update { key: args[1], value: args[2], change: ChangeView::SetShowFpsOverlay(on) })
            &&& (args[1] == "enabled"@ || args[1] == "idle_enabled"@) ==> config_request(args, value_bits) == Ok::<
                RequestView,
                Seq<char>,
            >(RequestView::Update { key: args[1], value: args[2], change: ChangeView::IdleEnabled(on) })
            &&& (args[1] == "gpu"@ || args[1] == "gpu_enabled"@) ==> config_request(args, value_bits) == Ok::<
                RequestView,
                Seq<char>,
            >(RequestView::Update { key: args[1], value: args[2], change: ChangeView::SetGpuEnabled(on) })
        },
{
    reveal_strlit("set");
    reveal_strlit("list");
    reveal_strlit("get");
    reveal_strlit("true");
    reveal_strlit("false");
    reveal_strlit("fps");
    reveal_strlit("show_fps_overlay");
    reveal_strlit("enabled");
    reveal_strlit("idle_enabled");
    reveal_strlit("gpu");
    reveal_strlit("gpu_enabled");
    reveal_strlit("idle_timeout_mins");
    reveal_strlit("timeout");
    reveal_strlit("active_saver");
    reveal_strlit("saver");
    if args.len() >= 3 && args[0] == "set"@ && (args[2] == "true"@ || args[2] == "false"@) {
        assert(args[0][0] == 's');
        let k = args[1];
        let v = args[2];
        assert(v == "false"@ ==> v.len() == 5);
        if k == "fps"@ {
            assert(k[0] == 'f');
        } else if k == "show_fps_overlay"@ {
            assert(k[0] == 's' && k[1] == 'h');
        } else if k == "enabled"@ {
            assert(k[0] == 'e');
        } else if k == "idle_enabled"@ {
            assert(k[0] == 'i' && k[5] == 'e');
        } else if k == "gpu"@ {
            assert(k[0] == 'g');
        } else if k == "gpu_enabled"@ {
            assert(k[0] == 'g');
        }
    }
}

/// `trance config set timeout <n>` (or `idle_timeout_mins`), with `n` written in decimal,
/// asks for a timeout of `n` minutes when `n` is in `1..=240` and is refused otherwise.
pub proof fn law_config_set_timeout(args: Seq<Seq<char>>, value_bits: Option<u32>, n: nat)
    ensures
        args.len() >= 3 && args[0] == "set"@ && (args[1] == "timeout"@ || args[1] == "idle_timeout_mins"@)
            && args[2] == decimal_text(n) && n <= u32::MAX ==> config_request(args, value_bits) == (if 1 <= n
            <= 240 {
            Ok::<RequestView, Seq<char>>(
                RequestView::Update { key: args[1], value: args[2], change: ChangeView::SetTimeout(n as u32) },
            )
        } else {
            Err::<RequestView, Seq<char>>("timeout must be between 1 and 240 minutes"@)
        }),
{
    reveal_strlit("set");
    reveal_strlit("list");
    reveal_strlit("get");
    reveal_strlit("timeout");
    reveal_strlit("idle_timeout_mins");
    reveal_strlit("enabled");
    reveal_strlit("idle_enabled");
    lemma_decimal_text(n);
    let d = decimal_text(n);
    assert(is_digit(d[0]));
    if args.len() >= 3 && args[0] == "set"@ {
        assert(args[0][0] == 's');
        let k = args[1];
        if k == "timeout"@ {
            assert(k[0] == 't');
        } else if k == "idle_timeout_mins"@ {
            assert(k[5] == 't');
        }
    }
}

} // verus!
