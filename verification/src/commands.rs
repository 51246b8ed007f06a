//! Control commands (from D-Bus or the tick loop) and how each changes the settings.

use vstd::prelude::*;

use crate::config::{settings_valid, ConfigView, DaemonConfig, opt_str_view};
use crate::saver::SaverCatalog;
use crate::scale::{in_scale_range, is_le_zero, le_zero_bits, scale_in_range};

verus! {

broadcast use vstd::string::group_string_axioms;

/// A request to the daemon.
#[derive(Debug, Clone)]
pub enum DaemonCommand {
    Enable,
    Disable,
    SetTimeout(u32),
    SetSaver(Option<String>),
    SetShowFpsOverlay(bool),
    /// Binary32 bits of the requested scale; `None` or a value `<= 0` restores the default.
    SetRenderScale(Option<u32>),
    Preview(String),
    StopPresentation,
}

/// Why a command was refused.
#[derive(Debug, Clone, PartialEq, Eq)]
pub enum CommandError {
    /// The timeout is outside `1..=240` minutes.
    TimeoutOutOfRange,
    /// The saver is not on the allowlist.
    UnknownSaver(String),
    /// The saver is allowlisted but its binary does not resolve.
    SaverNotInstalled(String),
    /// The render scale is not a finite value in `0.25..=1.0`.
    RenderScaleOutOfRange,
}

impl CommandError {
    /// The error text reported to the caller.
    pub fn message(&self) -> (s: String)
        ensures
            s@ == match self {
                CommandError::TimeoutOutOfRange => "timeout must be between 1 and 240 minutes"@,
                CommandError::UnknownSaver(name) => "unknown or invalid screensaver name: "@ + name@,
                CommandError::SaverNotInstalled(name) => "resolving saver binary for "@ + name@,
                CommandError::RenderScaleOutOfRange => "render_scale must be between 0.25 and 1.0"@,
            },
    {
        match self {
            CommandError::TimeoutOutOfRange => "timeout must be between 1 and 240 minutes".to_string(),
            CommandError::UnknownSaver(name) => "unknown or invalid screensaver name: ".to_string().concat(name.as_str()),
            CommandError::SaverNotInstalled(name) => "resolving saver binary for ".to_string().concat(name.as_str()),
            CommandError::RenderScaleOutOfRange => "render_scale must be between 0.25 and 1.0".to_string(),
        }
    }
}

/// An idle timeout is accepted when it lies in `1..=240` minutes.
pub fn validate_idle_timeout(minutes: u32) -> (r: Result<(), CommandError>)
    ensures
        r is Ok <==> 1 <= minutes <= 240,
        r is Err ==> r == Err::<(), CommandError>(CommandError::TimeoutOutOfRange),
{
    if minutes == 0 || minutes > 240 {
        return Err(CommandError::TimeoutOutOfRange);
    }
    Ok(())
}

/// A saver choice is accepted when it is `None` (random) or an allowlisted, installed saver.
pub fn validate_saver_choice(saver: Option<&str>, catalog: &SaverCatalog) -> (r: Result<(), CommandError>)
    ensures
        match saver {
            None => r is Ok,
            Some(name) => if !catalog.allows(name@) {
                r matches Err(CommandError::UnknownSaver(n)) && n@ == name@
            } else if !catalog.has_installed(name@) {
                r matches Err(CommandError::SaverNotInstalled(n)) && n@ == name@
            } else {
                r is Ok
            },
        },
{
    if let Some(name) = saver {
        if !catalog.is_allowed_saver(name) {
            return Err(CommandError::UnknownSaver(name.to_string()));
        }
        if !catalog.is_installed(name) {
            return Err(CommandError::SaverNotInstalled(name.to_string()));
        }
    }
    Ok(())
}

/// A render scale is accepted when it is finite and in `0.25..=1.0`.
pub fn validate_render_scale(scale: u32) -> (r: Result<(), CommandError>)
    ensures
        r is Ok <==> in_scale_range(scale),
        r is Err ==> r == Err::<(), CommandError>(CommandError::RenderScaleOutOfRange),
{
    if !scale_in_range(scale) {
        return Err(CommandError::RenderScaleOutOfRange);
    }
    Ok(())
}

/// The stored form of a requested scale: `None` and values `<= 0` mean the default;
/// other values must be in range.
pub open spec fn normalized_scale(scale: Option<u32>) -> Result<Option<u32>, CommandError> {
    match scale {
        None => Ok(None),
        Some(v) => if le_zero_bits(v) {
            Ok(None)
        } else if in_scale_range(v) {
            Ok(Some(v))
        } else {
            Err(CommandError::RenderScaleOutOfRange)
        },
    }
}

/// The stored form of a requested scale (see `normalized_scale`).
pub fn normalize_render_scale(scale: Option<u32>) -> (r: Result<Option<u32>, CommandError>)
    ensures
        r == normalized_scale(scale),
{
    match scale {
        None => Ok(None),
        Some(v) => {
            if is_le_zero(v) {
                Ok(None)
            } else {
                match validate_render_scale(v) {
                    Ok(()) => Ok(Some(v)),
                    Err(e) => Err(e),
                }
            }
        },
    }
}

/// The settings a command leaves, or the error it is refused with (settings unchanged).
/// Preview and stop do not touch the settings.
pub open spec fn command_result(c: ConfigView, cmd: DaemonCommand, catalog: SaverCatalog) -> Result<ConfigView, CommandError> {
    match cmd {
        DaemonCommand::Enable => Ok(ConfigView { idle_enabled: true, ..c }),
        DaemonCommand::Disable => Ok(ConfigView { idle_enabled: false, ..c }),
        DaemonCommand::SetTimeout(m) => if 1 <= m <= 240 {
            Ok(ConfigView { idle_timeout_mins: m, ..c })
        } else {
            Err(CommandError::TimeoutOutOfRange)
        },
        DaemonCommand::SetSaver(name) => match name {
            None => Ok(ConfigView { active_saver: None, ..c }),
            Some(n) => if !catalog.allows(n@) {
                Err(CommandError::UnknownSaver(n))
            } else if !catalog.has_installed(n@) {
                Err(CommandError::SaverNotInstalled(n))
            } else {
                Ok(ConfigView { active_saver: Some(n@), ..c })
            },
        },
        DaemonCommand::SetShowFpsOverlay(b) => Ok(ConfigView { show_fps_overlay: b, ..c }),
        DaemonCommand::SetRenderScale(s) => match normalized_scale(s) {
            Ok(stored) => Ok(ConfigView { render_scale: stored, ..c }),
            Err(e) => Err(e),
        },
        DaemonCommand::Preview(_) | DaemonCommand::StopPresentation => Ok(c),
    }
}

/// Whether `r` is the outcome `command_result` describes for settings that were `before`
/// and are `after`; an error's saver name is compared by its characters.
pub open spec fn matches_command_result(before: ConfigView, after: ConfigView, r: Result<(), CommandError>, expected: Result<ConfigView, CommandError>) -> bool {
    match expected {
        Ok(c) => r is Ok && after == c,
        Err(CommandError::UnknownSaver(n)) => after == before && (r matches Err(CommandError::UnknownSaver(m)) && m@ == n@),
        Err(CommandError::SaverNotInstalled(n)) => after == before && (r matches Err(CommandError::SaverNotInstalled(m)) && m@ == n@),
        Err(e) => after == before && r == Err::<(), CommandError>(e),
    }
}

impl DaemonConfig {
    /// Apply a command to the settings: validate, then change the one setting. Saving
    /// and announcing the change are the caller's.
    pub fn apply_command(&mut self, command: &DaemonCommand, catalog: &SaverCatalog) -> (r: Result<(), CommandError>)
        ensures
            matches_command_result(old(self)@, final(self)@, r, command_result(old(self)@, *command, *catalog)),
    {
        match command {
            DaemonCommand::Enable => {
                self.idle_enabled = true;
                Ok(())
            },
            DaemonCommand::Disable => {
                self.idle_enabled = false;
                Ok(())
            },
            DaemonCommand::SetTimeout(minutes) => {
                validate_idle_timeout(*minutes)?;
                self.idle_timeout_mins = *minutes;
                Ok(())
            },
            DaemonCommand::SetSaver(name) => {
                match name {
                    Some(n) => {
                        validate_saver_choice(Some(n.as_str()), catalog)?;
                        self.active_saver = Some(n.clone());
                    },
                    None => {
                        self.active_saver = None;
                    },
                }
                Ok(())
            },
            DaemonCommand::SetShowFpsOverlay(enabled) => {
                self.show_fps_overlay = *enabled;
                Ok(())
            },
            DaemonCommand::SetRenderScale(scale) => {
                let stored = normalize_render_scale(*scale)?;
                self.render_scale = stored;
                Ok(())
            },
            DaemonCommand::Preview(_) | DaemonCommand::StopPresentation => Ok(()),
        }
    }
}

/// A command the daemon accepts keeps valid settings valid: it never brings in a saver
/// off the allowlist (nor one that is not installed), a timeout out of range or a render
/// scale out of range.
pub proof fn law_commands_keep_settings_valid(c: ConfigView, cmd: DaemonCommand, catalog: SaverCatalog)
    requires
        settings_valid(c, catalog),
    ensures
        command_result(c, cmd, catalog) matches Ok(next) ==> settings_valid(next, catalog),
        cmd matches DaemonCommand::SetSaver(Some(n)) ==> (command_result(c, cmd, catalog) is Ok <==> catalog.allows(n@)
            && catalog.has_installed(n@)),
{
}

/// A refused command leaves the settings as they were.
pub proof fn law_refused_command_changes_nothing(cmd: DaemonCommand, catalog: SaverCatalog, before: ConfigView, after: ConfigView, r: Result<(), CommandError>)
    requires
        matches_command_result(before, after, r, command_result(before, cmd, catalog)),
        r is Err,
    ensures
        after == before,
{
}

} // verus!
