//! The display topology a presentation spans: the outputs the compositor reports,
//! with per-output position, size and scale overrides from `TRANCE_CUSTOM_LAYOUTS`.

use std::collections::HashMap;

use vstd::prelude::*;

use crate::text::{
    eq_ignore_ascii_case, eq_ignore_ascii_case_str, parse_i32, parse_signed, parse_u32,
    parse_unsigned, split, split_char, str_eq, trim_str, trim_ws, views,
};

verus! {

broadcast use {vstd::string::group_string_axioms, vstd::std_specs::hash::group_hash_axioms};

/// One output as the compositor lays it out.
#[derive(Debug, Clone, Copy, PartialEq, Eq)]
pub struct OutputLayout {
    pub id: u32,
    pub x: i32,
    pub y: i32,
    pub width: u32,
    pub height: u32,
    pub scale: i32,
    pub refresh_rate_hz: u32,
}

/// One monitor of the topology a presentation uses.
#[derive(Debug, Clone, Copy, PartialEq, Eq)]
pub struct MonitorTopology {
    pub id: u32,
    pub x: i32,
    pub y: i32,
    pub width: u32,
    pub height: u32,
    pub scale: i32,
    pub refresh_rate_hz: u32,
}

/// The monitors, and whether each renders its own simulation.
#[derive(Debug, Clone)]
pub struct DisplayTopologyMap {
    pub monitors: Vec<MonitorTopology>,
    pub independent_rendering: bool,
}

/// Fields of one output that `TRANCE_CUSTOM_LAYOUTS` replaces.
#[derive(Debug, Clone, Copy, PartialEq, Eq)]
pub struct CustomOverride {
    pub x: Option<i32>,
    pub y: Option<i32>,
    pub w: Option<u32>,
    pub h: Option<u32>,
    pub scale: Option<i32>,
}

pub open spec fn i32_of(s: Seq<char>) -> Option<i32> {
    match parse_signed(s, i32::MIN as int, i32::MAX as int) {
        Some(v) => Some(v as i32),
        None => None,
    }
}

pub open spec fn u32_of(s: Seq<char>) -> Option<u32> {
    match parse_unsigned(s, u32::MAX as nat) {
        Some(v) => Some(v as u32),
        None => None,
    }
}

/// The override from the comma-separated values `x,y,w,h,scale`; missing or unparsable
/// values override nothing.
pub open spec fn override_of(coords: Seq<Seq<char>>) -> CustomOverride {
    CustomOverride {
        x: if coords.len() >= 1 { i32_of(coords[0]) } else { None },
        y: if coords.len() >= 2 { i32_of(coords[1]) } else { None },
        w: if coords.len() >= 3 { u32_of(coords[2]) } else { None },
        h: if coords.len() >= 4 { u32_of(coords[3]) } else { None },
        scale: if coords.len() >= 5 { i32_of(coords[4]) } else { None },
    }
}

/// One `id:x,y,w,h,scale` entry (trimmed); entries without exactly one `:` or with a
/// non-numeric id are ignored.
pub open spec fn layout_entry(raw: Seq<char>) -> Option<(u32, CustomOverride)> {
    let e = trim_ws(raw);
    let parts = split(e, ':');
    if e.len() > 0 && parts.len() == 2 && u32_of(parts[0]) is Some {
        Some((u32_of(parts[0])->0, override_of(split(parts[1], ','))))
    } else {
        None
    }
}

/// The overrides of the entries, later entries for an id replacing earlier ones.
pub open spec fn layouts_of(entries: Seq<Seq<char>>) -> Map<u32, CustomOverride>
    decreases entries.len(),
{
    if entries.len() == 0 {
        Map::empty()
    } else {
        let prev = layouts_of(entries.drop_last());
        match layout_entry(entries.last()) {
            Some((id, ov)) => prev.insert(id, ov),
            None => prev,
        }
    }
}

/// The overrides that a `TRANCE_CUSTOM_LAYOUTS` value (`;`-separated entries) sets.
pub open spec fn custom_layouts(s: Seq<char>) -> Map<u32, CustomOverride> {
    layouts_of(split(s, ';'))
}

fn coord_i32(coords: &Vec<&str>, i: usize) -> (r: Option<i32>)
    ensures
        r == (if i < coords@.len() { i32_of(coords@[i as int]@) } else { None }),
{
    if i < coords.len() {
        parse_i32(coords[i])
    } else {
        None
    }
}

fn coord_u32(coords: &Vec<&str>, i: usize) -> (r: Option<u32>)
    ensures
        r == (if i < coords@.len() { u32_of(coords@[i as int]@) } else { None }),
{
    if i < coords.len() {
        parse_u32(coords[i])
    } else {
        None
    }
}

fn layout_entry_exec(raw: &str) -> (r: Option<(u32, CustomOverride)>)
    ensures
        r == layout_entry(raw@),
{
    let e = trim_str(raw);
    if e.is_empty() {
        return None;
    }
    let parts = split_char(e, ':');
    if parts.len() != 2 {
        return None;
    }
    assert(views(parts@)[0] == parts@[0]@);
    assert(views(parts@)[1] == parts@[1]@);
    match parse_u32(parts[0]) {
        Some(id) => {
            let coords = split_char(parts[1], ',');
            proof {
                assert forall|k: int| 0 <= k < coords@.len() implies views(coords@)[k] == coords@[k]@ by {}
            }
            let ov = CustomOverride {
                x: coord_i32(&coords, 0),
                y: coord_i32(&coords, 1),
                w: coord_u32(&coords, 2),
                h: coord_u32(&coords, 3),
                scale: coord_i32(&coords, 4),
            };
            Some((id, ov))
        },
        None => None,
    }
}

/// Parse a `TRANCE_CUSTOM_LAYOUTS` value, such as `1:100,200,800,600,2;2:0,0,1920,1080,1`.
pub fn parse_custom_layouts(s: &str) -> (r: HashMap<u32, CustomOverride>)
    ensures
        r@ == custom_layouts(s@),
{
    let entries = split_char(s, ';');
    let mut map: HashMap<u32, CustomOverride> = HashMap::new();
    let mut i: usize = 0;
    assert(views(entries@).take(0) =~= Seq::<Seq<char>>::empty());
    assert(map@ =~= Map::<u32, CustomOverride>::empty());
    while i < entries.len()
        invariant
            i <= entries@.len(),
            views(entries@) == split(s@, ';'),
            map@ == layouts_of(views(entries@).take(i as int)),
        decreases entries.len() - i,
    {
        assert(views(entries@).take(i + 1).drop_last() =~= views(entries@).take(i as int));
        assert(views(entries@).take(i + 1).last() == entries@[i as int]@);
        match layout_entry_exec(entries[i]) {
            Some((id, ov)) => {
                map.insert(id, ov);
            },
            None => {},
        }
        i = i + 1;
    }
    assert(views(entries@).take(entries@.len() as int) =~= views(entries@));
    map
}

/// The monitor for an output, with its override applied.
pub open spec fn monitor_for(layout: OutputLayout, ov: Option<CustomOverride>) -> MonitorTopology {
    match ov {
        Some(o) => MonitorTopology {
            id: layout.id,
            x: if o.x is Some { o.x->0 } else { layout.x },
            y: if o.y is Some { o.y->0 } else { layout.y },
            width: if o.w is Some { o.w->0 } else { layout.width },
            height: if o.h is Some { o.h->0 } else { layout.height },
            scale: if o.scale is Some { o.scale->0 } else { layout.scale },
            refresh_rate_hz: layout.refresh_rate_hz,
        },
        None => MonitorTopology {
            id: layout.id,
            x: layout.x,
            y: layout.y,
            width: layout.width,
            height: layout.height,
            scale: layout.scale,
            refresh_rate_hz: layout.refresh_rate_hz,
        },
    }
}

/// `TRANCE_INDEPENDENT_RENDERING` turns independent rendering on when it is `1` or
/// `true` in any letter case.
pub open spec fn independent_flag(var: Option<Seq<char>>) -> bool {
    match var {
        Some(v) => v == "1"@ || eq_ignore_ascii_case(v, "true"@),
        None => false,
    }
}

impl DisplayTopologyMap {
    /// The topology for the compositor's outputs, given the values of
    /// `TRANCE_INDEPENDENT_RENDERING` and `TRANCE_CUSTOM_LAYOUTS` (if set).
    pub fn build(layouts: &Vec<OutputLayout>, independent_var: Option<&str>, custom_var: Option<&str>) -> (m: Self)
        ensures
            m.independent_rendering == independent_flag(
                match independent_var {
                    Some(v) => Some(v@),
                    None => None,
                },
            ),
            m.monitors@.len() == layouts@.len(),
            forall|i: int|
                0 <= i < layouts@.len() ==> #[trigger] m.monitors@[i] == monitor_for(
                    layouts@[i],
                    match custom_var {
                        Some(v) => if custom_layouts(v@).contains_key(layouts@[i].id) {
                            Some(custom_layouts(v@)[layouts@[i].id])
                        } else {
                            None
                        },
                        None => None,
                    },
                ),
    {
        let independent_rendering = match independent_var {
            Some(v) => str_eq(v, "1") || eq_ignore_ascii_case_str(v, "true"),
            None => false,
        };
        let custom = match custom_var {
            Some(v) => parse_custom_layouts(v),
            None => HashMap::new(),
        };
        let ghost custom_map = match custom_var {
            Some(v) => custom_layouts(v@),
            None => Map::<u32, CustomOverride>::empty(),
        };
        assert(custom@ =~= custom_map);
        let mut monitors: Vec<MonitorTopology> = Vec::new();
        let mut i: usize = 0;
        while i < layouts.len()
            invariant
                i <= layouts@.len(),
                custom@ == custom_map,
                monitors@.len() == i,
                forall|k: int|
                    0 <= k < i ==> #[trigger] monitors@[k] == monitor_for(
                        layouts@[k],
                        if custom_map.contains_key(layouts@[k].id) {
                            Some(custom_map[layouts@[k].id])
                        } else {
                            None
                        },
                    ),
            decreases layouts.len() - i,
        {
            let layout = layouts[i];
            let mut x = layout.x;
            let mut y = layout.y;
            let mut w = layout.width;
            let mut h = layout.height;
            let mut scale = layout.scale;
            match custom.get(&layout.id) {
                Some(ov) => {
                    if let Some(cx) = ov.x {
                        x = cx;
                    }
                    if let Some(cy) = ov.y {
                        y = cy;
                    }
                    if let Some(cw) = ov.w {
                        w = cw;
                    }
                    if let Some(ch) = ov.h {
                        h = ch;
                    }
                    if let Some(cs) = ov.scale {
                        scale = cs;
                    }
                },
                None => {},
            }
            monitors.push(
                MonitorTopology {
                    id: layout.id,
                    x,
                    y,
                    width: w,
                    height: h,
                    scale,
                    refresh_rate_hz: layout.refresh_rate_hz,
                },
            );
            i = i + 1;
        }
        DisplayTopologyMap { monitors, independent_rendering }
    }
}

/// Independent rendering is on exactly when `TRANCE_INDEPENDENT_RENDERING` is set to `1`
/// or to `true` in any mix of upper and lower case (`true`, `TRUE`, `True`, ...); unset, it
/// is off.
pub proof fn law_independent_rendering_switch(var: Option<Seq<char>>)
    ensures
        independent_flag(var) <==> (var matches Some(v) && (v == "1"@ || crate::text::to_ascii_lowercase(v)
            == "true"@)),
{
    reveal_strlit("true");
    if let Some(v) = var {
        let t = "true"@;
        let lv = crate::text::to_ascii_lowercase(v);
        assert forall|i: int| 0 <= i < t.len() implies crate::text::ascii_lower(#[trigger] t[i]) == t[i] by {}
        if eq_ignore_ascii_case(v, t) {
            assert(lv =~= t);
        }
        if lv == t {
            assert forall|i: int| 0 <= i < v.len() implies crate::text::ascii_lower(v[i])
                == crate::text::ascii_lower(#[trigger] t[i]) by {
                assert(lv[i] == crate::text::ascii_lower(v[i]));
            }
        }
    }
}

} // verus!
