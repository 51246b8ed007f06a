//! The status the daemon publishes on D-Bus: the settings it runs with and its live
//! state, and when a change of either is worth a `StatusChanged` signal.

use vstd::prelude::*;

use crate::config::{opt_str_view, ConfigView, DaemonConfig};
use crate::text::str_eq;

verus! {

broadcast use vstd::string::group_string_axioms;

/// Ticks between two reloads of the settings file.
pub const RELOAD_EVERY_TICKS: u32 = 10;

/// The published daemon status.
#[derive(Debug, Clone)]
pub struct DaemonStatus {
    pub running: bool,
    pub idle_enabled: bool,
    pub idle_timeout_mins: u32,
    /// Configured saver, empty for random.
    pub active_saver: String,
    pub gpu_enabled: bool,
    pub show_fps_overlay: bool,
    /// Binary32 bits of the render scale; `None` is published as the empty string.
    pub render_scale: Option<u32>,
    pub system_idle: bool,
    pub presentation_active: bool,
    pub preview_active: bool,
    pub session_locked: bool,
    pub inhibited: bool,
    /// Saver currently shown, empty when none.
    pub current_saver: String,
}

/// The mathematical value of the status.
pub struct StatusView {
    pub running: bool,
    pub idle_enabled: bool,
    pub idle_timeout_mins: u32,
    pub active_saver: Seq<char>,
    pub gpu_enabled: bool,
    pub show_fps_overlay: bool,
    pub render_scale: Option<u32>,
    pub system_idle: bool,
    pub presentation_active: bool,
    pub preview_active: bool,
    pub session_locked: bool,
    pub inhibited: bool,
    pub current_saver: Seq<char>,
}

impl View for DaemonStatus {
    type V = StatusView;

    open spec fn view(&self) -> StatusView {
        StatusView {
            running: self.running,
            idle_enabled: self.idle_enabled,
            idle_timeout_mins: self.idle_timeout_mins,
            active_saver: self.active_saver@,
            gpu_enabled: self.gpu_enabled,
            show_fps_overlay: self.show_fps_overlay,
            render_scale: self.render_scale,
            system_idle: self.system_idle,
            presentation_active: self.presentation_active,
            preview_active: self.preview_active,
            session_locked: self.session_locked,
            inhibited: self.inhibited,
            current_saver: self.current_saver@,
        }
    }
}

/// The configured saver as published: its name, or empty for random.
pub open spec fn saver_text(c: ConfigView) -> Seq<char> {
    match c.active_saver {
        Some(n) => n,
        None => Seq::empty(),
    }
}

/// The live inputs of one tick.
pub struct LiveState {
    pub system_idle: bool,
    pub presentation_active: bool,
    pub preview_active: bool,
    pub session_locked: bool,
    pub inhibited: bool,
}

/// The status at startup: running, with the initial settings (GPU off) and no live state.
pub open spec fn initial_status(c: ConfigView) -> StatusView {
    StatusView {
        running: true,
        idle_enabled: c.idle_enabled,
        idle_timeout_mins: c.idle_timeout_mins,
        active_saver: saver_text(c),
        gpu_enabled: false,
        show_fps_overlay: c.show_fps_overlay,
        render_scale: c.render_scale,
        system_idle: false,
        presentation_active: false,
        preview_active: false,
        session_locked: false,
        inhibited: false,
        current_saver: Seq::empty(),
    }
}

/// The status after a tick: running, the settings, and the live state.
pub open spec fn live_status(c: ConfigView, live: LiveState, current_saver: Seq<char>) -> StatusView {
    StatusView {
        running: true,
        idle_enabled: c.idle_enabled,
        idle_timeout_mins: c.idle_timeout_mins,
        active_saver: saver_text(c),
        gpu_enabled: c.gpu_enabled,
        show_fps_overlay: c.show_fps_overlay,
        render_scale: c.render_scale,
        system_idle: live.system_idle,
        presentation_active: live.presentation_active,
        preview_active: live.preview_active,
        session_locked: live.session_locked,
        inhibited: live.inhibited,
        current_saver,
    }
}

/// Whether a tick changes any published field (`running` excepted).
pub open spec fn differs_from_live(s: StatusView, c: ConfigView, live: LiveState, current_saver: Seq<char>) -> bool {
    let t = live_status(c, live, current_saver);
    ||| s.system_idle != t.system_idle
    ||| s.presentation_active != t.presentation_active
    ||| s.preview_active != t.preview_active
    ||| s.session_locked != t.session_locked
    ||| s.inhibited != t.inhibited
    ||| s.idle_enabled != t.idle_enabled
    ||| s.idle_timeout_mins != t.idle_timeout_mins
    ||| s.active_saver != t.active_saver
    ||| s.gpu_enabled != t.gpu_enabled
    ||| s.show_fps_overlay != t.show_fps_overlay
    ||| s.render_scale != t.render_scale
    ||| s.current_saver != t.current_saver
}

/// The status after the settings were changed: the settings fields follow them, GPU is
/// reported off, the live fields stay.
pub open spec fn synced_status(s: StatusView, c: ConfigView) -> StatusView {
    StatusView {
        idle_enabled: c.idle_enabled,
        idle_timeout_mins: c.idle_timeout_mins,
        active_saver: saver_text(c),
        gpu_enabled: false,
        show_fps_overlay: c.show_fps_overlay,
        render_scale: c.render_scale,
        ..s
    }
}

fn saver_string(c: &DaemonConfig) -> (s: String)
    ensures
        s@ == saver_text(c@),
{
    match &c.active_saver {
        Some(n) => n.clone(),
        None => String::new(),
    }
}

impl DaemonStatus {
    /// The status a daemon starting with these settings publishes.
    pub fn from_config(config: &DaemonConfig) -> (s: Self)
        ensures
            s@ == initial_status(config@),
    {
        DaemonStatus {
            running: true,
            idle_enabled: config.idle_enabled,
            idle_timeout_mins: config.idle_timeout_mins,
            active_saver: saver_string(config),
            gpu_enabled: false,
            show_fps_overlay: config.show_fps_overlay,
            render_scale: config.render_scale,
            system_idle: false,
            presentation_active: false,
            preview_active: false,
            session_locked: false,
            inhibited: false,
            current_saver: String::new(),
        }
    }

    /// Bring the status up to date with one tick (`update_live_state`); returns whether a
    /// published field changed, so that the status is marked for publishing.
    pub fn update_live_state(&mut self, config: &DaemonConfig, live: LiveState, current_saver: &str) -> (changed: bool)
        ensures
            changed == differs_from_live(old(self)@, config@, live, current_saver@),
            final(self)@ == live_status(config@, live, current_saver@),
    {
        let changed = self.compute_dirty_fields(config, &live, current_saver);
        self.copy_live_fields(config, &live, current_saver);
        changed
    }

    fn compute_dirty_fields(&self, config: &DaemonConfig, live: &LiveState, current_saver: &str) -> (r: bool)
        ensures
            r == differs_from_live(self@, config@, *live, current_saver@),
    {
        let active = saver_string(config);
        self.system_idle != live.system_idle || self.presentation_active != live.presentation_active
            || self.preview_active != live.preview_active || self.session_locked
            != live.session_locked || self.inhibited != live.inhibited || self.idle_enabled
            != config.idle_enabled || self.idle_timeout_mins != config.idle_timeout_mins
            || !str_eq(self.active_saver.as_str(), active.as_str()) || self.gpu_enabled
            != config.gpu_enabled || self.show_fps_overlay != config.show_fps_overlay
            || self.render_scale != config.render_scale || !str_eq(
            self.current_saver.as_str(),
            current_saver,
        )
    }

    fn copy_live_fields(&mut self, config: &DaemonConfig, live: &LiveState, current_saver: &str)
        ensures
            final(self)@ == live_status(config@, *live, current_saver@),
    {
        self.running = true;
        self.system_idle = live.system_idle;
        self.presentation_active = live.presentation_active;
        self.preview_active = live.preview_active;
        self.session_locked = live.session_locked;
        self.inhibited = live.inhibited;
        self.idle_enabled = config.idle_enabled;
        self.idle_timeout_mins = config.idle_timeout_mins;
        self.active_saver = saver_string(config);
        self.gpu_enabled = config.gpu_enabled;
        self.show_fps_overlay = config.show_fps_overlay;
        self.render_scale = config.render_scale;
        self.current_saver = current_saver.to_string();
    }

    /// Copy the settings into the status after a settings change (`sync_config_status`).
    pub fn sync_config(&mut self, config: &DaemonConfig)
        ensures
            final(self)@ == synced_status(old(self)@, config@),
    {
        self.idle_enabled = config.idle_enabled;
        self.idle_timeout_mins = config.idle_timeout_mins;
        self.active_saver = saver_string(config);
        self.gpu_enabled = false;
        self.show_fps_overlay = config.show_fps_overlay;
        self.render_scale = config.render_scale;
    }
}

/// Whether tick number `tick` reloads the settings file (every tenth tick).
pub fn reload_due(tick: u32) -> (r: bool)
    ensures
        r == (tick % RELOAD_EVERY_TICKS == 0),
{
    tick % RELOAD_EVERY_TICKS == 0
}

/// What a reload of the settings file changed.
#[derive(Debug, Clone, Copy, PartialEq, Eq)]
pub struct ReloadOutcome {
    /// The settings differ from the ones in use and were replaced.
    pub changed: bool,
    /// The new idle timeout, when the reload changed it.
    pub new_timeout: Option<u32>,
}

impl DaemonConfig {
    /// Adopt settings read again from disk, once a reload is due.
    pub fn reload_from(&mut self, reloaded: DaemonConfig) -> (r: ReloadOutcome)
        ensures
            final(self)@ == reloaded@,
            r.changed == (old(self)@ != reloaded@),
            r.new_timeout == if reloaded.idle_timeout_mins != old(self).idle_timeout_mins {
                Some(reloaded.idle_timeout_mins)
            } else {
                None::<u32>
            },
    {
        let previous = self.idle_timeout_mins;
        let changed = !self.same_as(&reloaded);
        if changed {
            *self = reloaded;
        }
        let new_timeout = if self.idle_timeout_mins != previous {
            Some(self.idle_timeout_mins)
        } else {
            None
        };
        ReloadOutcome { changed, new_timeout }
    }
}

/// A tick that repeats the previous tick's inputs publishes nothing new.
pub proof fn law_repeated_tick_is_quiet(c: ConfigView, live: LiveState, current_saver: Seq<char>)
    ensures
        !differs_from_live(live_status(c, live, current_saver), c, live, current_saver),
{
}

/// After any tick, the status carries exactly the settings and live inputs of that
/// tick, whatever it held before; and it changed exactly when some field differs.
pub proof fn law_tick_status_is_snapshot(s1: StatusView, c: ConfigView, live: LiveState, current_saver: Seq<char>)
    ensures
        differs_from_live(s1, c, live, current_saver) <==> ({
            let t = live_status(c, live, current_saver);
            StatusView { running: true, ..s1 } != t
        }),
{
    let t = live_status(c, live, current_saver);
    if !differs_from_live(s1, c, live, current_saver) {
        assert(StatusView { running: true, ..s1 } == t);
    }
}

} // verus!
