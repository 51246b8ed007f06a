//! Daemon settings: their defaults, the `key: value` lines of the settings file
//! they are read from and written to, and the commands that change them.

use vstd::prelude::*;

use crate::saver::SaverCatalog;
use crate::scale::{clamp_scale, clamp_scale_bits, in_scale_range, is_le_zero, le_zero_bits, scale_in_range};
use crate::text::{
    eq_ignore_ascii_case, eq_ignore_ascii_case_str, find, find_str, lemma_find_from_none, occurs_at,
    parse_bool, parse_bool_str, parse_u32, parse_unsigned, split, split_char, starts_with,
    starts_with_str, str_eq, trim, trim_class, trim_str, trim_ws, views, CharClass,
};

verus! {

broadcast use vstd::string::group_string_axioms;

/// Shortest idle timeout, in minutes.
pub const MIN_IDLE_TIMEOUT_MINS: u32 = 1;

/// Longest idle timeout, in minutes.
pub const MAX_IDLE_TIMEOUT_MINS: u32 = 240;

/// The daemon's settings.
#[derive(Debug, Clone, PartialEq)]
pub struct DaemonConfig {
    /// Saver shown on idle; `None` picks one at random each time.
    pub active_saver: Option<String>,
    pub idle_enabled: bool,
    pub idle_timeout_mins: u32,
    /// Deprecated and always stored as `false`.
    pub gpu_enabled: bool,
    pub show_fps_overlay: bool,
    /// Simulation grid scale override in `0.25..=1.0`, as binary32 bits; `None` uses
    /// the renderer's default.
    pub render_scale: Option<u32>,
}

/// The mathematical value of the settings.
pub struct ConfigView {
    pub active_saver: Option<Seq<char>>,
    pub idle_enabled: bool,
    pub idle_timeout_mins: u32,
    pub gpu_enabled: bool,
    pub show_fps_overlay: bool,
    pub render_scale: Option<u32>,
}

pub open spec fn opt_str_view(o: Option<String>) -> Option<Seq<char>> {
    match o {
        Some(s) => Some(s@),
        None => None,
    }
}

impl View for DaemonConfig {
    type V = ConfigView;

    open spec fn view(&self) -> ConfigView {
        ConfigView {
            active_saver: opt_str_view(self.active_saver),
            idle_enabled: self.idle_enabled,
            idle_timeout_mins: self.idle_timeout_mins,
            gpu_enabled: self.gpu_enabled,
            show_fps_overlay: self.show_fps_overlay,
            render_scale: self.render_scale,
        }
    }
}

/// The settings a fresh installation runs with.
pub open spec fn default_config() -> ConfigView {
    ConfigView {
        active_saver: Some("beams"@),
        idle_enabled: true,
        idle_timeout_mins: 10,
        gpu_enabled: false,
        show_fps_overlay: false,
        render_scale: None,
    }
}

impl Default for DaemonConfig {
    fn default() -> (c: Self)
        ensures
            c@ == default_config(),
    {
        DaemonConfig {
            active_saver: Some("beams".to_string()),
            idle_enabled: true,
            idle_timeout_mins: 10,
            gpu_enabled: false,
            show_fps_overlay: false,
            render_scale: None,
        }
    }
}

fn clone_opt_string(o: &Option<String>) -> (r: Option<String>)
    ensures
        opt_str_view(r) == opt_str_view(*o),
{
    match o {
        Some(s) => Some(s.clone()),
        None => None,
    }
}

fn opt_str_eq(a: &Option<String>, b: &Option<String>) -> (r: bool)
    ensures
        r == (opt_str_view(*a) == opt_str_view(*b)),
{
    match (a, b) {
        (Some(x), Some(y)) => str_eq(x.as_str(), y.as_str()),
        (None, None) => true,
        _ => false,
    }
}

impl DaemonConfig {
    /// A copy with the same value.
    pub fn duplicate(&self) -> (c: Self)
        ensures
            c@ == self@,
    {
        DaemonConfig {
            active_saver: clone_opt_string(&self.active_saver),
            idle_enabled: self.idle_enabled,
            idle_timeout_mins: self.idle_timeout_mins,
            gpu_enabled: self.gpu_enabled,
            show_fps_overlay: self.show_fps_overlay,
            render_scale: self.render_scale,
        }
    }

    /// Whether two settings are equal.
    pub fn same_as(&self, other: &DaemonConfig) -> (r: bool)
        ensures
            r == (self@ == other@),
    {
        opt_str_eq(&self.active_saver, &other.active_saver) && self.idle_enabled
            == other.idle_enabled && self.idle_timeout_mins == other.idle_timeout_mins
            && self.gpu_enabled == other.gpu_enabled && self.show_fps_overlay
            == other.show_fps_overlay && self.render_scale == other.render_scale
    }
}

/// One `key: value` setting line of the settings file. `scale` is, for the caller to
/// fill in, the binary32 bits of `value` read as a finite `f32`, if it is one.
#[derive(Debug, Clone)]
pub struct ConfigEntry {
    pub key: String,
    pub value: String,
    pub scale: Option<u32>,
}

/// The `(key, value)` of a trimmed line: the text around its first `:`, each trimmed,
/// the value further stripped of surrounding `"` and then `'`.
pub open spec fn entry_of_line(raw: Seq<char>) -> Option<(Seq<char>, Seq<char>)> {
    let line = trim_ws(raw);
    if line.len() == 0 || starts_with(line, "#"@) {
        None
    } else {
        match find(line, ":"@) {
            Some(idx) => Some(
                (
                    trim_ws(line.take(idx)),
                    trim(
                        trim(trim_ws(line.subrange(idx + 1, line.len() as int)), CharClass::Only('"')),
                        CharClass::Only('\''),
                    ),
                ),
            ),
            None => None,
        }
    }
}

/// The setting lines among `lines`, in order.
pub open spec fn entries_of_lines(lines: Seq<Seq<char>>) -> Seq<(Seq<char>, Seq<char>)>
    decreases lines.len(),
{
    if lines.len() == 0 {
        Seq::empty()
    } else {
        let prev = entries_of_lines(lines.drop_last());
        match entry_of_line(lines.last()) {
            Some(e) => prev.push(e),
            None => prev,
        }
    }
}

/// The settings lines of a settings file, in order.
pub open spec fn config_entries(content: Seq<char>) -> Seq<(Seq<char>, Seq<char>)> {
    entries_of_lines(split(content, '\n'))
}

pub open spec fn entry_views(v: Seq<ConfigEntry>) -> Seq<(Seq<char>, Seq<char>)> {
    v.map_values(|e: ConfigEntry| (e.key@, e.value@))
}

fn entry_of_line_exec(raw: &str) -> (r: Option<ConfigEntry>)
    ensures
        match r {
            Some(e) => entry_of_line(raw@) == Some((e.key@, e.value@)) && e.scale is None,
            None => entry_of_line(raw@) is None,
        },
{
    let line = trim_str(raw);
    if line.is_empty() || starts_with_str(line, "#") {
        return None;
    }
    match find_str(line, ":") {
        Some(idx) => {
            proof {
                lemma_find_from_none(line@, ":"@, 0);
                reveal_strlit(":");
            }
            let len = crate::text::chars_of(line).len();
            assert(occurs_at(line@, ":"@, idx as int));
            let key = trim_str(line.substring_char(0, idx));
            let rest = trim_str(line.substring_char(idx + 1, len));
            let value = trim_class(trim_class(rest, CharClass::Only('"')), CharClass::Only('\''));
            assert(line@.subrange(0, idx as int) =~= line@.take(idx as int));
            Some(ConfigEntry { key: key.to_string(), value: value.to_string(), scale: None })
        },
        None => None,
    }
}

/// The setting lines of a settings file, in order, each with `scale` unset.
pub fn parse_config_entries(content: &str) -> (r: Vec<ConfigEntry>)
    ensures
        entry_views(r@) == config_entries(content@),
        forall|i: int| 0 <= i < r@.len() ==> (#[trigger] r@[i]).scale is None,
{
    let lines = split_char(content, '\n');
    let mut r: Vec<ConfigEntry> = Vec::new();
    let mut i: usize = 0;
    assert(views(lines@).take(0) =~= Seq::<Seq<char>>::empty());
    while i < lines.len()
        invariant
            i <= lines@.len(),
            views(lines@) == split(content@, '\n'),
            entry_views(r@) == entries_of_lines(views(lines@).take(i as int)),
            forall|k: int| 0 <= k < r@.len() ==> (#[trigger] r@[k]).scale is None,
        decreases lines.len() - i,
    {
        assert(views(lines@).take(i + 1).drop_last() =~= views(lines@).take(i as int));
        assert(views(lines@).take(i + 1).last() == lines@[i as int]@);
        match entry_of_line_exec(lines[i]) {
            Some(e) => {
                let ghost before = r@;
                r.push(e);
                assert(entry_views(r@) =~= entry_views(before).push((e.key@, e.value@)));
            },
            None => {},
        }
        i = i + 1;
    }
    assert(views(lines@).take(lines@.len() as int) =~= views(lines@));
    r
}

/// The settings after one setting line, given the line's value read as a finite `f32`
/// (`scale`). Unknown keys and values that do not parse change nothing.
pub open spec fn apply_entry(c: ConfigView, key: Seq<char>, value: Seq<char>, scale: Option<u32>, catalog: SaverCatalog) -> ConfigView {
    if key == "idle_timeout_mins"@ {
        match parse_unsigned(value, u32::MAX as nat) {
            Some(n) if 1 <= n <= 240 => ConfigView { idle_timeout_mins: n as u32, ..c },
            _ => c,
        }
    } else if key == "active_saver"@ {
        if value.len() == 0 || value == "none"@ {
            ConfigView { active_saver: None, ..c }
        } else if catalog.allows(value) {
            ConfigView { active_saver: Some(value), ..c }
        } else {
            c
        }
    } else if key == "idle_enabled"@ {
        match parse_bool(value) {
            Some(b) => ConfigView { idle_enabled: b, ..c },
            None => c,
        }
    } else if key == "gpu_enabled"@ {
        ConfigView { gpu_enabled: false, ..c }
    } else if key == "show_fps_overlay"@ {
        match parse_bool(value) {
            Some(b) => ConfigView { show_fps_overlay: b, ..c },
            None => c,
        }
    } else if key == "render_scale"@ {
        if value.len() == 0 || eq_ignore_ascii_case(value, "null"@) {
            ConfigView { render_scale: None, ..c }
        } else {
            match scale {
                Some(b) => ConfigView { render_scale: Some(clamp_scale(b)), ..c },
                None => c,
            }
        }
    } else {
        c
    }
}

/// The settings after the entries, applied in order to `c`.
pub open spec fn apply_entries(c: ConfigView, entries: Seq<ConfigEntry>, catalog: SaverCatalog) -> ConfigView
    decreases entries.len(),
{
    if entries.len() == 0 {
        c
    } else {
        let e = entries.last();
        apply_entry(apply_entries(c, entries.drop_last(), catalog), e.key@, e.value@, e.scale, catalog)
    }
}

impl DaemonConfig {
    /// Apply one setting line (see `apply_entry`).
    pub fn apply_entry(&mut self, entry: &ConfigEntry, catalog: &SaverCatalog)
        ensures
            final(self)@ == apply_entry(old(self)@, entry.key@, entry.value@, entry.scale, *catalog),
    {
        let key = entry.key.as_str();
        let val = entry.value.as_str();
        if str_eq(key, "idle_timeout_mins") {
            if let Some(n) = parse_u32(val) {
                if 1 <= n && n <= 240 {
                    self.idle_timeout_mins = n;
                }
            }
        } else if str_eq(key, "active_saver") {
            if val.is_empty() || str_eq(val, "none") {
                self.active_saver = None;
            } else if catalog.is_allowed_saver(val) {
                self.active_saver = Some(val.to_string());
            }
        } else if str_eq(key, "idle_enabled") {
            if let Some(b) = parse_bool_str(val) {
                self.idle_enabled = b;
            }
        } else if str_eq(key, "gpu_enabled") {
            self.gpu_enabled = false;
        } else if str_eq(key, "show_fps_overlay") {
            if let Some(b) = parse_bool_str(val) {
                self.show_fps_overlay = b;
            }
        } else if str_eq(key, "render_scale") {
            if val.is_empty() || eq_ignore_ascii_case_str(val, "null") {
                self.render_scale = None;
            } else if let Some(b) = entry.scale {
                self.render_scale = Some(clamp_scale_bits(b));
            }
        }
    }

    /// The settings read from a settings file's lines: the defaults, changed by each
    /// entry in turn (reading the file is the caller's).
    pub fn from_entries(entries: &Vec<ConfigEntry>, catalog: &SaverCatalog) -> (c: Self)
        ensures
            c@ == apply_entries(default_config(), entries@, *catalog),
    {
        let mut c = DaemonConfig::default();
        let mut i: usize = 0;
        assert(entries@.take(0) =~= Seq::<ConfigEntry>::empty());
        while i < entries.len()
            invariant
                i <= entries@.len(),
                c@ == apply_entries(default_config(), entries@.take(i as int), *catalog),
            decreases entries.len() - i,
        {
            assert(entries@.take(i + 1).drop_last() =~= entries@.take(i as int));
            assert(entries@.take(i + 1).last() == entries@[i as int]);
            c.apply_entry(&entries[i], catalog);
            i = i + 1;
        }
        assert(entries@.take(i as int) =~= entries@);
        c
    }
}


/// The settings after an optional value for one key, read as that key's settings line.
pub open spec fn override_with(c: ConfigView, key: Seq<char>, value: Option<Seq<char>>, catalog: SaverCatalog) -> ConfigView {
    match value {
        Some(v) => apply_entry(c, key, v, None, catalog),
        None => c,
    }
}

/// The settings after the environment overrides: `TRANCE_IDLE_TIMEOUT_MINS`,
/// `TRANCE_ACTIVE_SAVER` and `TRANCE_SHOW_FPS`, each when set, applied in that order as
/// an `idle_timeout_mins`, `active_saver` and `show_fps_overlay` line with that value.
/// A value the settings file would refuse changes nothing.
pub open spec fn env_overridden(
    c: ConfigView,
    timeout: Option<Seq<char>>,
    saver: Option<Seq<char>>,
    show_fps: Option<Seq<char>>,
    catalog: SaverCatalog,
) -> ConfigView {
    override_with(
        override_with(override_with(c, "idle_timeout_mins"@, timeout, catalog), "active_saver"@, saver, catalog),
        "show_fps_overlay"@,
        show_fps,
        catalog,
    )
}

pub open spec fn opt_str_ref_view(o: Option<&str>) -> Option<Seq<char>> {
    match o {
        Some(s) => Some(s@),
        None => None,
    }
}

impl DaemonConfig {
    fn override_key(&mut self, key: &str, value: Option<&str>, catalog: &SaverCatalog)
        ensures
            final(self)@ == override_with(old(self)@, key@, opt_str_ref_view(value), *catalog),
            settings_valid(old(self)@, *catalog) ==> settings_valid(final(self)@, *catalog),
    {
        if let Some(v) = value {
            let entry = ConfigEntry { key: key.to_string(), value: v.to_string(), scale: None };
            proof {
                if settings_valid(self@, *catalog) {
                    law_loaded_settings_stay_valid(self@, seq![entry], *catalog);
                    assert(seq![entry].drop_last() =~= Seq::<ConfigEntry>::empty());
                }
            }
            self.apply_entry(&entry, catalog);
        }
    }

    /// Apply the environment overrides (see `env_overridden`); each argument is the
    /// variable's value, `None` when it is unset.
    pub fn apply_env_overrides(
        &mut self,
        timeout: Option<&str>,
        saver: Option<&str>,
        show_fps: Option<&str>,
        catalog: &SaverCatalog,
    )
        ensures
            final(self)@ == env_overridden(
                old(self)@,
                opt_str_ref_view(timeout),
                opt_str_ref_view(saver),
                opt_str_ref_view(show_fps),
                *catalog,
            ),
            settings_valid(old(self)@, *catalog) ==> settings_valid(final(self)@, *catalog),
    {
        self.override_key("idle_timeout_mins", timeout, catalog);
        self.override_key("active_saver", saver, catalog);
        self.override_key("show_fps_overlay", show_fps, catalog);
    }
}

pub open spec fn bool_text(b: bool) -> Seq<char> {
    if b {
        "true"@
    } else {
        "false"@
    }
}

fn bool_str(b: bool) -> (s: &'static str)
    ensures
        s@ == bool_text(b),
{
    if b {
        "true"
    } else {
        "false"
    }
}

/// The settings file as saved, given the decimal form of the render scale
/// (`f32` display of `render_scale`, used only when it is set).
pub open spec fn config_text(c: ConfigView, scale_decimal: Seq<char>) -> Seq<char> {
    "# local76 themes and settings\naccent_color: \"#00BFFF\"\n# dark_mode is auto-detected from system\nidle_timeout_mins: "@
        + crate::text::decimal_text(c.idle_timeout_mins as nat) + "\ntheme_idx: 0\nactive_saver: \""@
        + match c.active_saver {
        Some(name) => name,
        None => "none"@,
    } + "\"\nidle_enabled: "@ + bool_text(c.idle_enabled) + "\ngpu_enabled: false\nshow_fps_overlay: "@
        + bool_text(c.show_fps_overlay) + "\nrender_scale: "@ + match c.render_scale {
        Some(_) => scale_decimal,
        None => "null"@,
    } + "\n"@
}

impl DaemonConfig {
    /// The text of the settings file for these settings (writing it is the caller's).
    pub fn file_text(&self, scale_decimal: &str) -> (s: String)
        ensures
            s@ == config_text(self@, scale_decimal@),
    {
        let mut s = String::new();
        s.append("# local76 themes and settings\naccent_color: \"#00BFFF\"\n# dark_mode is auto-detected from system\nidle_timeout_mins: ");
        crate::text::push_decimal(&mut s, self.idle_timeout_mins as u64);
        s.append("\ntheme_idx: 0\nactive_saver: \"");
        match &self.active_saver {
            Some(name) => s.append(name.as_str()),
            None => s.append("none"),
        }
        s.append("\"\nidle_enabled: ");
        s.append(bool_str(self.idle_enabled));
        s.append("\ngpu_enabled: false\nshow_fps_overlay: ");
        s.append(bool_str(self.show_fps_overlay));
        s.append("\nrender_scale: ");
        match self.render_scale {
            Some(_) => s.append(scale_decimal),
            None => s.append("null"),
        }
        s.append("\n");
        assert(s@ =~= config_text(self@, scale_decimal@));
        s
    }
}

/// Settings the daemon may run with: a timeout of `1..=240` minutes, no saver or an
/// allowlisted one, no render scale or one in `0.25..=1.0`, and the GPU switch off.
pub open spec fn settings_valid(c: ConfigView, catalog: SaverCatalog) -> bool {
    &&& 1 <= c.idle_timeout_mins <= 240
    &&& (c.active_saver is None || catalog.allows(c.active_saver->0))
    &&& (c.render_scale is None || in_scale_range(c.render_scale->0))
    &&& !c.gpu_enabled
}

/// Whatever a settings file holds, loading it over valid settings leaves valid settings:
/// a timeout out of range, a saver off the allowlist or a GPU request never gets in, and
/// a render scale is clamped into range.
pub proof fn law_loaded_settings_stay_valid(c: ConfigView, entries: Seq<ConfigEntry>, catalog: SaverCatalog)
    requires
        settings_valid(c, catalog),
    ensures
        settings_valid(apply_entries(c, entries, catalog), catalog),
    decreases entries.len(),
{
    if entries.len() > 0 {
        law_loaded_settings_stay_valid(c, entries.drop_last(), catalog);
    }
}

} // verus!
