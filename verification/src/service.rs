//! The control methods of the daemon's D-Bus interface: who may call them, and what each
//! does to the settings, the inhibitors and the presentation once allowed.

use vstd::prelude::*;

use crate::commands::{command_result, CommandError, DaemonCommand};
use crate::config::{ConfigView, DaemonConfig};
use crate::inhibit::{count_for, first_match, holds, InhibitError, InhibitorState, InhibitorView, MAX_INHIBITORS_PER_CLIENT};
use crate::saver::SaverCatalog;
use crate::text::{cat, decimal_string, decimal_text};

verus! {

broadcast use vstd::string::group_string_axioms;

/// A D-Bus error reply.
#[derive(Debug, Clone, PartialEq, Eq)]
pub enum ServiceError {
    Failed(String),
    AccessDenied(String),
    LimitsExceeded(String),
}

/// The mathematical value of an error reply.
pub enum ErrorView {
    Failed(Seq<char>),
    AccessDenied(Seq<char>),
    LimitsExceeded(Seq<char>),
}

impl View for ServiceError {
    type V = ErrorView;

    open spec fn view(&self) -> ErrorView {
        match self {
            ServiceError::Failed(m) => ErrorView::Failed(m@),
            ServiceError::AccessDenied(m) => ErrorView::AccessDenied(m@),
            ServiceError::LimitsExceeded(m) => ErrorView::LimitsExceeded(m@),
        }
    }
}

/// What the bus says about the caller of a control method.
#[derive(Debug, Clone, Copy, PartialEq, Eq)]
pub enum PeerCredentials {
    /// The message has no sender.
    NoSender,
    /// The bus could not be asked.
    BusUnavailable,
    /// The bus did not give the caller's credentials.
    Unverifiable,
    /// The caller's process and user ids, as far as the bus knows them.
    Known { pid: Option<u32>, uid: Option<u32> },
}

/// The caller to check (pid, user id), or the reply refusing the call; `bus_error` is the
/// text of the error the bus reported when it could not be asked.
pub open spec fn peer_to_check(creds: PeerCredentials, bus_error: Seq<char>) -> Result<(u32, Option<u32>), ErrorView> {
    match creds {
        PeerCredentials::NoSender => Err(ErrorView::AccessDenied("control request missing D-Bus sender"@)),
        PeerCredentials::BusUnavailable => Err(ErrorView::Failed(bus_error)),
        PeerCredentials::Unverifiable => Err(ErrorView::AccessDenied("cannot verify D-Bus peer"@)),
        PeerCredentials::Known { pid, uid } => match pid {
            Some(p) => Ok((p, uid)),
            None => Err(ErrorView::AccessDenied("D-Bus peer PID unavailable"@)),
        },
    }
}

pub open spec fn error_result<T>(r: Result<T, ServiceError>) -> Result<T, ErrorView> {
    match r {
        Ok(v) => Ok(v),
        Err(e) => Err(e@),
    }
}

/// The first step of admitting a control call: the caller whose executable must be checked.
pub fn control_peer(creds: PeerCredentials, bus_error: &str) -> (r: Result<(u32, Option<u32>), ServiceError>)
    ensures
        error_result(r) == peer_to_check(creds, bus_error@),
{
    match creds {
        PeerCredentials::NoSender => Err(ServiceError::AccessDenied("control request missing D-Bus sender".to_string())),
        PeerCredentials::BusUnavailable => Err(ServiceError::Failed(bus_error.to_string())),
        PeerCredentials::Unverifiable => Err(ServiceError::AccessDenied("cannot verify D-Bus peer".to_string())),
        PeerCredentials::Known { pid, uid } => match pid {
            Some(p) => Ok((p, uid)),
            None => Err(ServiceError::AccessDenied("D-Bus peer PID unavailable".to_string())),
        },
    }
}

/// The reply to a caller once checked: allowed, or refused.
pub open spec fn control_reply(trusted: bool) -> Result<(), ErrorView> {
    if trusted {
        Ok(())
    } else {
        Err(ErrorView::AccessDenied("control methods require the trance CLI or panel applet"@))
    }
}

/// The second step of admitting a control call: the reply, given whether the caller
/// turned out trusted.
pub fn control_verdict(trusted: bool) -> (r: Result<(), ServiceError>)
    ensures
        error_result(r) == control_reply(trusted),
{
    if trusted {
        Ok(())
    } else {
        Err(ServiceError::AccessDenied("control methods require the trance CLI or panel applet".to_string()))
    }
}

/// A control method, called by an allowed peer.
#[derive(Debug, Clone)]
pub enum ControlCall {
    Enable,
    Disable,
    SetTimeout(u32),
    /// The saver name; empty for random.
    SetSaver(String),
    Preview(String),
    StopPreview,
    /// Kept for old clients; does nothing.
    SetGpuEnabled(bool),
    SetShowFpsOverlay(bool),
    /// Binary32 bits of the requested scale.
    SetRenderScale(u32),
}

/// A command handed on to the presentation loop.
#[derive(Debug, Clone, Copy, PartialEq, Eq)]
pub enum Forward {
    StopPresentation,
    SetTimeout(u32),
    /// Preview the saver the call names.
    Preview,
}

/// What the caller must do after a control method succeeded, in order: save the settings
/// (reporting `Failed` with the `persist` text when that fails) and mark the status
/// changed, hand a command to the presentation loop, publish the settings in the status,
/// mark the status changed.
#[derive(Debug, Clone, Copy, PartialEq, Eq)]
pub struct CallEffects {
    pub persist: Option<&'static str>,
    pub forward: Option<Forward>,
    pub sync_status: bool,
    pub mark_dirty: bool,
}

/// The settings command a control method applies, if any.
pub open spec fn call_command(call: ControlCall) -> Option<DaemonCommand> {
    match call {
        ControlCall::Enable => Some(DaemonCommand::Enable),
        ControlCall::Disable => Some(DaemonCommand::Disable),
        ControlCall::SetTimeout(m) => Some(DaemonCommand::SetTimeout(m)),
        ControlCall::SetSaver(n) => Some(DaemonCommand::SetSaver(if n@.len() == 0 { None } else { Some(n) })),
        ControlCall::SetShowFpsOverlay(b) => Some(DaemonCommand::SetShowFpsOverlay(b)),
        ControlCall::SetRenderScale(s) => Some(DaemonCommand::SetRenderScale(Some(s))),
        _ => None,
    }
}

/// The text of a refused command.
pub open spec fn command_error_text(e: CommandError) -> Seq<char> {
    match e {
        CommandError::TimeoutOutOfRange => "timeout must be between 1 and 240 minutes"@,
        CommandError::UnknownSaver(name) => "unknown or invalid screensaver name: "@ + name@,
        CommandError::SaverNotInstalled(name) => "resolving saver binary for "@ + name@,
        CommandError::RenderScaleOutOfRange => "render_scale must be between 0.25 and 1.0"@,
    }
}

/// The effects of a settings command that was applied.
pub open spec fn settings_effects(call: ControlCall) -> CallEffects {
    match call {
        ControlCall::Enable => CallEffects {
            persist: Some("persisting config after Enable command"),
            forward: None,
            sync_status: true,
            mark_dirty: false,
        },
        ControlCall::Disable => CallEffects {
            persist: Some("persisting config after Disable command"),
            forward: Some(Forward::StopPresentation),
            sync_status: true,
            mark_dirty: false,
        },
        ControlCall::SetTimeout(m) => CallEffects {
            persist: Some("persisting config after SetTimeout command"),
            forward: Some(Forward::SetTimeout(m)),
            sync_status: true,
            mark_dirty: false,
        },
        ControlCall::SetSaver(_) => CallEffects {
            persist: Some("persisting config after SetSaver command"),
            forward: None,
            sync_status: true,
            mark_dirty: false,
        },
        ControlCall::SetShowFpsOverlay(_) => CallEffects {
            persist: Some("persisting config after SetShowFpsOverlay command"),
            forward: None,
            sync_status: true,
            mark_dirty: false,
        },
        _ => CallEffects {
            persist: Some("persisting config after SetRenderScale command"),
            forward: None,
            sync_status: true,
            mark_dirty: false,
        },
    }
}

/// What a control method answers and the settings it leaves: a settings command is
/// validated and applied (refused with `Failed` and its text, settings unchanged); a
/// preview needs an allowlisted, installed saver; stop hands on a stop; the GPU switch
/// does nothing.
pub open spec fn control_outcome(call: ControlCall, c: ConfigView, catalog: SaverCatalog) -> (Result<CallEffects, ErrorView>, ConfigView) {
    match call_command(call) {
        Some(cmd) => match command_result(c, cmd, catalog) {
            Ok(next) => (Ok(settings_effects(call)), next),
            Err(e) => (Err(ErrorView::Failed(command_error_text(e))), c),
        },
        None => match call {
            ControlCall::Preview(n) => if !catalog.allows(n@) {
                (Err(ErrorView::Failed("unknown or invalid screensaver name: "@ + n@)), c)
            } else if !catalog.has_installed(n@) {
                (Err(ErrorView::Failed("resolving saver binary for "@ + n@)), c)
            } else {
                (Ok(CallEffects { persist: None, forward: Some(Forward::Preview), sync_status: false, mark_dirty: true }), c)
            },
            ControlCall::StopPreview => (
                Ok(CallEffects { persist: None, forward: Some(Forward::StopPresentation), sync_status: false, mark_dirty: true }),
                c,
            ),
            _ => (Ok(CallEffects { persist: None, forward: None, sync_status: false, mark_dirty: false }), c),
        },
    }
}

fn command_of(call: &ControlCall) -> (r: Option<DaemonCommand>)
    ensures
        r == call_command(*call),
{
    match call {
        ControlCall::Enable => Some(DaemonCommand::Enable),
        ControlCall::Disable => Some(DaemonCommand::Disable),
        ControlCall::SetTimeout(m) => Some(DaemonCommand::SetTimeout(*m)),
        ControlCall::SetSaver(n) => {
            if n.as_str().is_empty() {
                Some(DaemonCommand::SetSaver(None))
            } else {
                Some(DaemonCommand::SetSaver(Some(n.clone())))
            }
        },
        ControlCall::SetShowFpsOverlay(b) => Some(DaemonCommand::SetShowFpsOverlay(*b)),
        ControlCall::SetRenderScale(s) => Some(DaemonCommand::SetRenderScale(Some(*s))),
        _ => None,
    }
}

fn effects_of(call: &ControlCall) -> (r: CallEffects)
    requires
        call_command(*call) is Some,
    ensures
        r == settings_effects(*call),
{
    match call {
        ControlCall::Enable => CallEffects {
            persist: Some("persisting config after Enable command"),
            forward: None,
            sync_status: true,
            mark_dirty: false,
        },
        ControlCall::Disable => CallEffects {
            persist: Some("persisting config after Disable command"),
            forward: Some(Forward::StopPresentation),
            sync_status: true,
            mark_dirty: false,
        },
        ControlCall::SetTimeout(m) => CallEffects {
            persist: Some("persisting config after SetTimeout command"),
            forward: Some(Forward::SetTimeout(*m)),
            sync_status: true,
            mark_dirty: false,
        },
        ControlCall::SetSaver(_) => CallEffects {
            persist: Some("persisting config after SetSaver command"),
            forward: None,
            sync_status: true,
            mark_dirty: false,
        },
        ControlCall::SetShowFpsOverlay(_) => CallEffects {
            persist: Some("persisting config after SetShowFpsOverlay command"),
            forward: None,
            sync_status: true,
            mark_dirty: false,
        },
        _ => CallEffects {
            persist: Some("persisting config after SetRenderScale command"),
            forward: None,
            sync_status: true,
            mark_dirty: false,
        },
    }
}

/// Serve a control method for an allowed caller: change the settings as it asks, and say
/// what the caller must do next.
pub fn control_call(call: &ControlCall, config: &mut DaemonConfig, catalog: &SaverCatalog) -> (r: Result<CallEffects, ServiceError>)
    ensures
        error_result(r) == control_outcome(*call, old(config)@, *catalog).0,
        final(config)@ == control_outcome(*call, old(config)@, *catalog).1,
{
    match command_of(call) {
        Some(cmd) => {
            let res = config.apply_command(&cmd, catalog);
            match res {
                Ok(()) => Ok(effects_of(call)),
                Err(e) => {
                    let m = e.message();
                    Err(ServiceError::Failed(m))
                },
            }
        },
        None => match call {
            ControlCall::Preview(n) => {
                if !catalog.is_allowed_saver(n.as_str()) {
                    Err(ServiceError::Failed(cat("unknown or invalid screensaver name: ", n.as_str())))
                } else if !catalog.is_installed(n.as_str()) {
                    Err(ServiceError::Failed(cat("resolving saver binary for ", n.as_str())))
                } else {
                    Ok(CallEffects { persist: None, forward: Some(Forward::Preview), sync_status: false, mark_dirty: true })
                }
            },
            ControlCall::StopPreview => Ok(
                CallEffects { persist: None, forward: Some(Forward::StopPresentation), sync_status: false, mark_dirty: true },
            ),
            _ => Ok(CallEffects { persist: None, forward: None, sync_status: false, mark_dirty: false }),
        },
    }
}

/// What `Inhibit` answers: the new cookie, or the refusal; without a sender it fails.
pub open spec fn inhibit_reply(has_sender: bool, count: nat, cookie: u32) -> Result<u32, ErrorView> {
    if !has_sender {
        Err(ErrorView::Failed("inhibit request missing D-Bus sender"@))
    } else if count >= MAX_INHIBITORS_PER_CLIENT {
        Err(ErrorView::LimitsExceeded("too many concurrent inhibitors for this client"@))
    } else {
        Ok(cookie)
    }
}

/// The `Inhibit` method: register an inhibitor for the caller (`sender`, when the
/// message has one). On success the caller stops the presentation and marks the status
/// changed.
pub fn inhibit_call(state: &mut InhibitorState, application: &str, reason: &str, sender: Option<&str>) -> (r: Result<u32, ServiceError>)
    ensures
        sender is None ==> error_result(r) == inhibit_reply(false, 0, 0) && *final(state) == *old(state),
        sender is Some ==> error_result(r) == inhibit_reply(
            true,
            count_for(old(state).entries(), sender->0@),
            old(state).spec_last_cookie().wrapping_add(1),
        ),
        sender is Some && count_for(old(state).entries(), sender->0@) < MAX_INHIBITORS_PER_CLIENT ==> {
            let cookie = old(state).spec_last_cookie().wrapping_add(1);
            &&& final(state).spec_last_cookie() == cookie
            &&& final(state).entries() == old(state).entries().push(
                InhibitorView {
                    cookie,
                    application_name: application@,
                    reason: reason@,
                    client: sender->0@,
                },
            )
        },
        sender is Some && count_for(old(state).entries(), sender->0@) >= MAX_INHIBITORS_PER_CLIENT ==> {
            &&& final(state).spec_last_cookie() == old(state).spec_last_cookie()
            &&& final(state).entries() == old(state).entries()
        },
        final(state).logind_cache() == old(state).logind_cache(),
{
    match sender {
        None => Err(ServiceError::Failed("inhibit request missing D-Bus sender".to_string())),
        Some(s) => {
            let res = state.add(application.to_string(), reason.to_string(), s.to_string());
            match res {
                Ok(cookie) => Ok(cookie),
                Err(e) => Err(ServiceError::LimitsExceeded(e.message().to_string())),
            }
        },
    }
}

/// What `UnInhibit` answers: success when the caller holds the cookie.
pub open spec fn uninhibit_reply(has_sender: bool, held: bool, cookie: u32) -> Result<(), ErrorView> {
    if !has_sender {
        Err(ErrorView::Failed("un_inhibit request missing D-Bus sender"@))
    } else if !held {
        Err(ErrorView::Failed("unknown inhibit cookie for caller: "@ + decimal_text(cookie as nat)))
    } else {
        Ok(())
    }
}

/// The `UnInhibit` method: release the caller's inhibitor with this cookie. On success the
/// caller marks the status changed.
pub fn uninhibit_call(state: &mut InhibitorState, cookie: u32, sender: Option<&str>) -> (r: Result<(), ServiceError>)
    ensures
        match sender {
            None => error_result(r) == uninhibit_reply(false, false, cookie) && *final(state) == *old(state),
            Some(s) => {
                &&& error_result(r) == uninhibit_reply(true, holds(old(state).entries(), cookie, s@), cookie)
                &&& final(state).entries() == match first_match(old(state).entries(), cookie, s@) {
                    Some(i) => old(state).entries().remove(i),
                    None => old(state).entries(),
                }
                &&& final(state).spec_last_cookie() == old(state).spec_last_cookie()
                &&& final(state).logind_cache() == old(state).logind_cache()
            },
        },
{
    match sender {
        None => Err(ServiceError::Failed("un_inhibit request missing D-Bus sender".to_string())),
        Some(s) => {
            if state.remove_for_client(cookie, s) {
                Ok(())
            } else {
                let n = decimal_string(cookie as u64);
                Err(ServiceError::Failed(cat("unknown inhibit cookie for caller: ", n.as_str())))
            }
        },
    }
}

/// The settings calls change the one setting they name, as they name it: `Enable` turns
/// idle activation on and `Disable` off, `SetShowFpsOverlay(b)` sets the overlay to `b`
/// (all three always succeed), and `SetTimeout(m)` succeeds exactly for `m` in `1..=240`,
/// setting that timeout, and otherwise changes nothing.
pub proof fn law_settings_calls_change_their_setting(c: ConfigView, catalog: SaverCatalog, m: u32, b: bool)
    ensures
        (control_outcome(ControlCall::Enable, c, catalog).0 is Ok),
        control_outcome(ControlCall::Enable, c, catalog).1 == (ConfigView { idle_enabled: true, ..c }),
        (control_outcome(ControlCall::Disable, c, catalog).0 is Ok),
        control_outcome(ControlCall::Disable, c, catalog).1 == (ConfigView { idle_enabled: false, ..c }),
        (control_outcome(ControlCall::SetShowFpsOverlay(b), c, catalog).0 is Ok),
        control_outcome(ControlCall::SetShowFpsOverlay(b), c, catalog).1 == (ConfigView { show_fps_overlay: b, ..c }),
        (control_outcome(ControlCall::SetTimeout(m), c, catalog).0 is Ok) <==> (1 <= m <= 240),
        control_outcome(ControlCall::SetTimeout(m), c, catalog).1 == (if 1 <= m <= 240 {
            ConfigView { idle_timeout_mins: m, ..c }
        } else {
            c
        }),
{
}

/// `SetSaver` with an empty name picks a random saver each time (no saver set); with a
/// name it succeeds exactly when the saver is allowlisted and installed, and then sets
/// it; a refused name changes nothing.
pub proof fn law_set_saver_call(c: ConfigView, catalog: SaverCatalog, n: String)
    ensures
        n@.len() == 0 ==> (control_outcome(ControlCall::SetSaver(n), c, catalog).0 is Ok)
            && control_outcome(ControlCall::SetSaver(n), c, catalog).1 == (ConfigView { active_saver: None, ..c }),
        n@.len() > 0 ==> ((control_outcome(ControlCall::SetSaver(n), c, catalog).0 is Ok) <==> (catalog.allows(n@)
            && catalog.has_installed(n@))),
        n@.len() > 0 ==> control_outcome(ControlCall::SetSaver(n), c, catalog).1 == (if catalog.allows(n@)
            && catalog.has_installed(n@) {
            ConfigView { active_saver: Some(n@), ..c }
        } else {
            c
        }),
{
}

} // verus!
