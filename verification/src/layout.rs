//! Geometry of a presentation across outputs: the virtual desktop they span, each
//! output's share of the simulation grid, side-by-side placement of outputs that all
//! report the origin, and the choice of the primary output.

use vstd::prelude::*;

use crate::topology::{MonitorTopology, OutputLayout};

verus! {

/// Most cells a spanning simulation grid may have before it is scaled down.
pub const MAX_SPAN_CELLS: usize = 12_000;

/// The part of the simulation grid that one output shows.
#[derive(Debug, Clone, Copy, PartialEq, Eq)]
pub struct MonitorCellBounds {
    pub start_col: usize,
    pub end_col: usize,
    pub start_row: usize,
    pub end_row: usize,
    pub is_primary: bool,
}

/// `usize::saturating_mul`.
pub open spec fn sat_mul(a: usize, b: usize) -> usize {
    if a * b > usize::MAX {
        usize::MAX
    } else {
        (a * b) as usize
    }
}

/// `usize::saturating_mul`.
pub fn saturating_mul_usize(a: usize, b: usize) -> (r: usize)
    ensures
        r == sat_mul(a, b),
{
    match a.checked_mul(b) {
        Some(p) => p,
        None => usize::MAX,
    }
}

/// `u32::saturating_mul`.
pub open spec fn sat_mul_u32(a: u32, b: u32) -> u32 {
    if a * b > u32::MAX {
        u32::MAX
    } else {
        (a * b) as u32
    }
}

fn saturating_mul_u32(a: u32, b: u32) -> (r: u32)
    ensures
        r == sat_mul_u32(a, b),
{
    match a.checked_mul(b) {
        Some(p) => p,
        None => u32::MAX,
    }
}

/// Whether a spanning grid of `cols` by `rows` stays within `MAX_SPAN_CELLS` as it is.
pub fn span_grid_fits(cols: usize, rows: usize) -> (r: bool)
    ensures
        r == (sat_mul(cols, rows) <= MAX_SPAN_CELLS),
{
    saturating_mul_usize(cols, rows) <= MAX_SPAN_CELLS
}

/// The right edge of an output.
pub open spec fn right(l: OutputLayout) -> int {
    l.x + l.width
}

/// The bottom edge of an output.
pub open spec fn bottom(l: OutputLayout) -> int {
    l.y + l.height
}

pub open spec fn min_x(ls: Seq<OutputLayout>) -> int
    decreases ls.len(),
{
    if ls.len() == 0 {
        0
    } else if ls.len() == 1 {
        ls[0].x as int
    } else {
        let m = min_x(ls.drop_last());
        if ls.last().x < m { ls.last().x as int } else { m }
    }
}

pub open spec fn min_y(ls: Seq<OutputLayout>) -> int
    decreases ls.len(),
{
    if ls.len() == 0 {
        0
    } else if ls.len() == 1 {
        ls[0].y as int
    } else {
        let m = min_y(ls.drop_last());
        if ls.last().y < m { ls.last().y as int } else { m }
    }
}

pub open spec fn max_right(ls: Seq<OutputLayout>) -> int
    decreases ls.len(),
{
    if ls.len() == 0 {
        0
    } else if ls.len() == 1 {
        right(ls[0])
    } else {
        let m = max_right(ls.drop_last());
        if right(ls.last()) > m { right(ls.last()) } else { m }
    }
}

pub open spec fn max_bottom(ls: Seq<OutputLayout>) -> int
    decreases ls.len(),
{
    if ls.len() == 0 {
        0
    } else if ls.len() == 1 {
        bottom(ls[0])
    } else {
        let m = max_bottom(ls.drop_last());
        if bottom(ls.last()) > m { bottom(ls.last()) } else { m }
    }
}

/// Every edge and every extent of the desktop is an `i32`, as the geometry computes
/// them in `i32`.
pub open spec fn geometry_fits(ls: Seq<OutputLayout>) -> bool {
    &&& forall|i: int| 0 <= i < ls.len() ==> #[trigger] ls[i].width <= i32::MAX && ls[i].height <= i32::MAX
        && right(ls[i]) <= i32::MAX && bottom(ls[i]) <= i32::MAX
    &&& forall|i: int, j: int|
        0 <= i < ls.len() && 0 <= j < ls.len() ==> right(#[trigger] ls[j]) - (#[trigger] ls[i]).x
            <= i32::MAX && bottom(ls[j]) - ls[i].y <= i32::MAX
}

proof fn lemma_extremes(ls: Seq<OutputLayout>)
    requires
        ls.len() > 0,
    ensures
        exists|i: int| 0 <= i < ls.len() && min_x(ls) == ls[i].x,
        exists|i: int| 0 <= i < ls.len() && min_y(ls) == ls[i].y,
        exists|i: int| 0 <= i < ls.len() && max_right(ls) == right(ls[i]),
        exists|i: int| 0 <= i < ls.len() && max_bottom(ls) == bottom(ls[i]),
        forall|i: int| 0 <= i < ls.len() ==> min_x(ls) <= #[trigger] ls[i].x && min_y(ls) <= ls[i].y
            && right(ls[i]) <= max_right(ls) && bottom(ls[i]) <= max_bottom(ls),
    decreases ls.len(),
{
    if ls.len() == 1 {
        assert(min_x(ls) == ls[0].x && min_y(ls) == ls[0].y);
        assert(max_right(ls) == right(ls[0]) && max_bottom(ls) == bottom(ls[0]));
    } else {
        let p = ls.drop_last();
        let n = ls.len() - 1;
        lemma_extremes(p);
        assert(ls.last() == ls[n]);
        assert forall|i: int| 0 <= i < ls.len() implies min_x(ls) <= #[trigger] ls[i].x && min_y(ls)
            <= ls[i].y && right(ls[i]) <= max_right(ls) && bottom(ls[i]) <= max_bottom(ls) by {
            if i < n {
                assert(ls[i] == p[i]);
            }
        }
        let a = choose|i: int| 0 <= i < p.len() && min_x(p) == p[i].x;
        let b = choose|i: int| 0 <= i < p.len() && min_y(p) == p[i].y;
        let c = choose|i: int| 0 <= i < p.len() && max_right(p) == right(p[i]);
        let d = choose|i: int| 0 <= i < p.len() && max_bottom(p) == bottom(p[i]);
        assert(p[a] == ls[a] && p[b] == ls[b] && p[c] == ls[c] && p[d] == ls[d]);
        if ls[n].x < min_x(p) {
            assert(min_x(ls) == ls[n].x);
        } else {
            assert(min_x(ls) == ls[a].x);
        }
        if ls[n].y < min_y(p) {
            assert(min_y(ls) == ls[n].y);
        } else {
            assert(min_y(ls) == ls[b].y);
        }
        if right(ls[n]) > max_right(p) {
            assert(max_right(ls) == right(ls[n]));
        } else {
            assert(max_right(ls) == right(ls[c]));
        }
        if bottom(ls[n]) > max_bottom(p) {
            assert(max_bottom(ls) == bottom(ls[n]));
        } else {
            assert(max_bottom(ls) == bottom(ls[d]));
        }
    }
}

/// The virtual desktop the outputs span: its top-left corner, and its width and height
/// (at least 1).
pub open spec fn desktop(ls: Seq<OutputLayout>) -> (int, int, int, int) {
    (
        min_x(ls),
        min_y(ls),
        if max_right(ls) - min_x(ls) >= 1 { max_right(ls) - min_x(ls) } else { 1 },
        if max_bottom(ls) - min_y(ls) >= 1 { max_bottom(ls) - min_y(ls) } else { 1 },
    )
}

/// The bounding box of all outputs: `(min_x, min_y, width, height)`.
pub fn virtual_desktop(layouts: &Vec<OutputLayout>) -> (r: (i32, i32, u32, u32))
    requires
        geometry_fits(layouts@),
    ensures
        (r.0 as int, r.1 as int, r.2 as int, r.3 as int) == desktop(layouts@),
{
    if layouts.len() == 0 {
        return (0, 0, 1, 1);
    }
    proof {
        lemma_extremes(layouts@);
    }
    let first = layouts[0];
    let mut lo_x = first.x;
    let mut lo_y = first.y;
    let mut hi_x = first.x + first.width as i32;
    let mut hi_y = first.y + first.height as i32;
    let mut i: usize = 1;
    assert(layouts@.take(1).drop_last() =~= Seq::<OutputLayout>::empty());
    while i < layouts.len()
        invariant
            1 <= i <= layouts@.len(),
            geometry_fits(layouts@),
            lo_x == min_x(layouts@.take(i as int)),
            lo_y == min_y(layouts@.take(i as int)),
            hi_x == max_right(layouts@.take(i as int)),
            hi_y == max_bottom(layouts@.take(i as int)),
        decreases layouts.len() - i,
    {
        let l = layouts[i];
        assert(layouts@.take(i + 1).drop_last() =~= layouts@.take(i as int));
        assert(layouts@.take(i + 1).last() == l);
        assert(geometry_fits(layouts@) ==> right(layouts@[i as int]) <= i32::MAX);
        if l.x < lo_x {
            lo_x = l.x;
        }
        if l.y < lo_y {
            lo_y = l.y;
        }
        let r = l.x + l.width as i32;
        let b = l.y + l.height as i32;
        if r > hi_x {
            hi_x = r;
        }
        if b > hi_y {
            hi_y = b;
        }
        i = i + 1;
    }
    assert(layouts@.take(i as int) =~= layouts@);
    proof {
        let ls = layouts@;
        let xi = choose|i: int| 0 <= i < ls.len() && min_x(ls) == ls[i].x;
        let xj = choose|i: int| 0 <= i < ls.len() && max_right(ls) == right(ls[i]);
        let yi = choose|i: int| 0 <= i < ls.len() && min_y(ls) == ls[i].y;
        let yj = choose|i: int| 0 <= i < ls.len() && max_bottom(ls) == bottom(ls[i]);
        assert(right(ls[xj]) - ls[xi].x <= i32::MAX);
        assert(bottom(ls[yj]) - ls[yi].y <= i32::MAX);
    }
    let w = hi_x - lo_x;
    let h = hi_y - lo_y;
    let w = if w >= 1 {
        w
    } else {
        1
    };
    let h = if h >= 1 {
        h
    } else {
        1
    };
    (lo_x, lo_y, w as u32, h as u32)
}

/// The cell column (or row) that pixel offset `rel` of a `total`-pixel desktop maps to in
/// a grid of `cells` cells.
pub open spec fn cell_of(rel: i32, cells: usize, total: u32) -> usize {
    (sat_mul(rel as usize, cells) / (total as usize)) as usize
}

/// The grid cells that `layout` covers within a desktop at `(min_x, min_y)` of
/// `total_w` by `total_h` pixels, in a `virtual_cols` by `virtual_rows` grid.
pub open spec fn cell_bounds(
    layout: OutputLayout,
    min_x: i32,
    min_y: i32,
    total_w: u32,
    total_h: u32,
    virtual_cols: usize,
    virtual_rows: usize,
    is_primary: bool,
) -> MonitorCellBounds {
    let rel_x1 = (layout.x - min_x) as i32;
    let rel_y1 = (layout.y - min_y) as i32;
    let rel_x2 = (rel_x1 + layout.width) as i32;
    let rel_y2 = (rel_y1 + layout.height) as i32;
    MonitorCellBounds {
        start_col: cell_of(rel_x1, virtual_cols, total_w),
        end_col: cell_of(rel_x2, virtual_cols, total_w),
        start_row: cell_of(rel_y1, virtual_rows, total_h),
        end_row: cell_of(rel_y2, virtual_rows, total_h),
        is_primary,
    }
}

/// The part of the virtual grid that an output covers.
pub fn monitor_cell_bounds(
    layout: OutputLayout,
    min_x: i32,
    min_y: i32,
    total_w: u32,
    total_h: u32,
    virtual_cols: usize,
    virtual_rows: usize,
    is_primary: bool,
) -> (b: MonitorCellBounds)
    requires
        total_w > 0,
        total_h > 0,
        i32::MIN <= layout.x - min_x <= i32::MAX,
        i32::MIN <= layout.y - min_y <= i32::MAX,
        layout.width <= i32::MAX,
        layout.height <= i32::MAX,
        i32::MIN <= layout.x - min_x + layout.width <= i32::MAX,
        i32::MIN <= layout.y - min_y + layout.height <= i32::MAX,
    ensures
        b == cell_bounds(layout, min_x, min_y, total_w, total_h, virtual_cols, virtual_rows, is_primary),
{
    let rel_x1 = layout.x - min_x;
    let rel_y1 = layout.y - min_y;
    let rel_x2 = rel_x1 + layout.width as i32;
    let rel_y2 = rel_y1 + layout.height as i32;
    MonitorCellBounds {
        start_col: saturating_mul_usize(rel_x1 as usize, virtual_cols) / total_w as usize,
        end_col: saturating_mul_usize(rel_x2 as usize, virtual_cols) / total_w as usize,
        start_row: saturating_mul_usize(rel_y1 as usize, virtual_rows) / total_h as usize,
        end_row: saturating_mul_usize(rel_y2 as usize, virtual_rows) / total_h as usize,
        is_primary,
    }
}

/// The part of the virtual grid that the primary output covers.
pub fn primary_bounds_in_grid(
    primary: OutputLayout,
    min_x: i32,
    min_y: i32,
    total_w: u32,
    total_h: u32,
    virtual_cols: usize,
    virtual_rows: usize,
) -> (b: MonitorCellBounds)
    requires
        total_w > 0,
        total_h > 0,
        i32::MIN <= primary.x - min_x <= i32::MAX,
        i32::MIN <= primary.y - min_y <= i32::MAX,
        primary.width <= i32::MAX,
        primary.height <= i32::MAX,
        i32::MIN <= primary.x - min_x + primary.width <= i32::MAX,
        i32::MIN <= primary.y - min_y + primary.height <= i32::MAX,
    ensures
        b == cell_bounds(primary, min_x, min_y, total_w, total_h, virtual_cols, virtual_rows, true),
{
    monitor_cell_bounds(primary, min_x, min_y, total_w, total_h, virtual_cols, virtual_rows, true)
}

/// The area key by which the primary output is chosen.
pub open spec fn area(l: OutputLayout) -> u32 {
    sat_mul_u32(l.width, l.height)
}

/// The primary output: the one with the largest area, the last such one on a tie
/// (`Iterator::max_by_key`); `None` when there are no outputs.
pub fn pick_primary(layouts: &Vec<OutputLayout>) -> (r: Option<OutputLayout>)
    ensures
        layouts@.len() == 0 <==> r is None,
        r matches Some(p) ==> exists|i: int|
            0 <= i < layouts@.len() && layouts@[i] == p && (forall|j: int|
                0 <= j < layouts@.len() ==> area(#[trigger] layouts@[j]) <= area(p)) && (forall|j: int|
                i < j < layouts@.len() ==> area(#[trigger] layouts@[j]) < area(p)),
{
    if layouts.len() == 0 {
        return None;
    }
    let mut best: usize = 0;
    let mut best_area = saturating_mul_u32(layouts[0].width, layouts[0].height);
    let mut i: usize = 1;
    while i < layouts.len()
        invariant
            1 <= i <= layouts@.len(),
            best < i,
            best_area == area(layouts@[best as int]),
            forall|j: int| 0 <= j < i ==> area(#[trigger] layouts@[j]) <= best_area,
            forall|j: int| best < j < i ==> area(#[trigger] layouts@[j]) < best_area,
        decreases layouts.len() - i,
    {
        let a = saturating_mul_u32(layouts[i].width, layouts[i].height);
        if a >= best_area {
            best = i;
            best_area = a;
        }
        i = i + 1;
    }
    Some(layouts[best])
}

/// All outputs report the origin.
pub open spec fn all_at_origin(ls: Seq<OutputLayout>) -> bool {
    forall|i: int| 0 <= i < ls.len() ==> (#[trigger] ls[i]).x == 0 && ls[i].y == 0
}

/// The total width of the first `n` outputs.
pub open spec fn width_prefix(ls: Seq<OutputLayout>, n: int) -> int
    decreases n,
{
    if n <= 0 {
        0
    } else {
        width_prefix(ls, n - 1) + ls[n - 1].width
    }
}

/// The placement `normalize_layout_positions` produces: when there are several outputs
/// and all report the origin, each is placed right of the previous one on one row;
/// otherwise the outputs stay where they are.
pub open spec fn normalized(ls: Seq<OutputLayout>) -> Seq<OutputLayout> {
    if ls.len() <= 1 || !all_at_origin(ls) {
        ls
    } else {
        Seq::new(ls.len(), |i: int| OutputLayout { x: width_prefix(ls, i) as i32, y: 0, ..ls[i] })
    }
}

proof fn lemma_width_prefix_mono(ls: Seq<OutputLayout>, a: int, b: int)
    requires
        0 <= a <= b,
    ensures
        width_prefix(ls, a) <= width_prefix(ls, b),
    decreases b,
{
    if a < b {
        lemma_width_prefix_mono(ls, a, b - 1);
    }
}

/// Place outputs that all report the origin side by side, left to right in order.
pub fn normalize_layout_positions(layouts: &mut Vec<OutputLayout>)
    requires
        old(layouts)@.len() > 1 && all_at_origin(old(layouts)@) ==> width_prefix(
            old(layouts)@,
            old(layouts)@.len() as int,
        ) <= i32::MAX,
    ensures
        final(layouts)@ == normalized(old(layouts)@),
{
    if layouts.len() <= 1 {
        return;
    }
    let mut k: usize = 0;
    while k < layouts.len()
        invariant
            k <= layouts@.len(),
            forall|j: int| 0 <= j < k ==> (#[trigger] layouts@[j]).x == 0 && layouts@[j].y == 0,
        decreases layouts.len() - k,
    {
        if layouts[k].x != 0 || layouts[k].y != 0 {
            return;
        }
        k = k + 1;
    }
    let ghost orig = layouts@;
    let mut x: i32 = 0;
    let mut i: usize = 0;
    while i < layouts.len()
        invariant
            i <= layouts@.len(),
            layouts@.len() == orig.len(),
            width_prefix(orig, orig.len() as int) <= i32::MAX,
            x == width_prefix(orig, i as int),
            forall|j: int| i <= j < orig.len() ==> #[trigger] layouts@[j] == orig[j],
            forall|j: int|
                0 <= j < i ==> #[trigger] layouts@[j] == (OutputLayout {
                    x: width_prefix(orig, j) as i32,
                    y: 0,
                    ..orig[j]
                }),
        decreases layouts.len() - i,
    {
        proof {
            lemma_width_prefix_mono(orig, i + 1, orig.len() as int);
            lemma_width_prefix_mono(orig, 0, i as int);
            assert(width_prefix(orig, i + 1) == width_prefix(orig, i as int) + orig[i as int].width);
        }
        let mut l = layouts[i];
        l.x = x;
        l.y = 0;
        let w = l.width;
        layouts.set(i, l);
        x = x + w as i32;
        i = i + 1;
    }
    assert(layouts@ =~= normalized(orig));
}

/// The simulation grid of one running plugin session: the output it renders for (0 for
/// the one session spanning all outputs), and its size in cells.
#[derive(Debug, Clone, Copy, PartialEq, Eq)]
pub struct GridSession {
    pub output_id: u32,
    pub cols: usize,
    pub rows: usize,
}

/// The index of the first session rendering for output `id`.
pub open spec fn session_for(sessions: Seq<GridSession>, id: u32, i: int) -> Option<int>
    decreases sessions.len() - i,
{
    if i < 0 || i >= sessions.len() {
        None
    } else if sessions[i].output_id == id {
        Some(i)
    } else {
        session_for(sessions, id, i + 1)
    }
}

/// The desktop origin and extent as the geometry computes them in `i32`/`u32`.
pub open spec fn desktop_exec(ls: Seq<OutputLayout>) -> (i32, i32, u32, u32) {
    let d = desktop(ls);
    (d.0 as i32, d.1 as i32, d.2 as u32, d.3 as u32)
}

/// The primary output's part of the grid, and the size of the grid its plugin sees:
/// with independent rendering the whole grid of the primary output's own session;
/// when one session spans all outputs, the primary output's cells of that grid.
pub open spec fn primary_grid(
    independent: bool,
    primary: OutputLayout,
    layouts: Seq<OutputLayout>,
    sessions: Seq<GridSession>,
) -> (MonitorCellBounds, usize, usize) {
    if independent {
        let s = sessions[session_for(sessions, primary.id, 0)->0];
        (MonitorCellBounds { start_col: 0, end_col: s.cols, start_row: 0, end_row: s.rows, is_primary: true }, s.cols, s.rows)
    } else {
        let s = sessions[0];
        let d = desktop_exec(layouts);
        (cell_bounds(primary, d.0, d.1, d.2, d.3, s.cols, s.rows, true), s.cols, s.rows)
    }
}

proof fn lemma_member_fits(ls: Seq<OutputLayout>, l: OutputLayout)
    requires
        geometry_fits(ls),
        ls.contains(l),
    ensures
        ({
            let d = desktop(ls);
            &&& i32::MIN <= d.0 <= i32::MAX
            &&& i32::MIN <= d.1 <= i32::MAX
            &&& 1 <= d.2 <= u32::MAX
            &&& 1 <= d.3 <= u32::MAX
            &&& 0 <= l.x - d.0
            &&& 0 <= l.y - d.1
            &&& l.x - d.0 + l.width <= i32::MAX
            &&& l.y - d.1 + l.height <= i32::MAX
            &&& l.width <= i32::MAX
            &&& l.height <= i32::MAX
        }),
{
    lemma_extremes(ls);
    let k = choose|k: int| 0 <= k < ls.len() && ls[k] == l;
    let a = choose|i: int| 0 <= i < ls.len() && min_x(ls) == ls[i].x;
    let b = choose|i: int| 0 <= i < ls.len() && min_y(ls) == ls[i].y;
    let c = choose|i: int| 0 <= i < ls.len() && max_right(ls) == right(ls[i]);
    let e = choose|i: int| 0 <= i < ls.len() && max_bottom(ls) == bottom(ls[i]);
    assert(right(ls[k]) - ls[a].x <= i32::MAX);
    assert(bottom(ls[k]) - ls[b].y <= i32::MAX);
    assert(right(ls[c]) - ls[a].x <= i32::MAX);
    assert(bottom(ls[e]) - ls[b].y <= i32::MAX);
    assert(ls[k].x <= right(ls[c]));
    assert(ls[k].y <= bottom(ls[e]));
}

fn find_session(sessions: &Vec<GridSession>, id: u32) -> (r: Option<usize>)
    ensures
        match r {
            Some(i) => session_for(sessions@, id, 0) == Some(i as int),
            None => session_for(sessions@, id, 0) is None,
        },
{
    let mut i: usize = 0;
    while i < sessions.len()
        invariant
            i <= sessions.len(),
            session_for(sessions@, id, 0) == session_for(sessions@, id, i as int),
        decreases sessions.len() - i,
    {
        if sessions[i].output_id == id {
            return Some(i);
        }
        i = i + 1;
    }
    None
}

/// The primary output's part of the grid and the grid size its plugin sees (see
/// `primary_grid`), published to the plugins before the frame loop starts.
pub fn primary_grid_bounds(
    independent: bool,
    primary: OutputLayout,
    layouts: &Vec<OutputLayout>,
    sessions: &Vec<GridSession>,
) -> (r: (MonitorCellBounds, usize, usize))
    requires
        geometry_fits(layouts@),
        layouts@.contains(primary),
        sessions@.len() > 0,
        independent ==> session_for(sessions@, primary.id, 0) is Some,
    ensures
        r == primary_grid(independent, primary, layouts@, sessions@),
{
    if independent {
        let i = find_session(sessions, primary.id);
        match i {
            Some(k) => {
                assert(0 <= k < sessions@.len()) by {
                    lemma_session_for_range(sessions@, primary.id, 0);
                }
                let s = sessions[k];
                (MonitorCellBounds { start_col: 0, end_col: s.cols, start_row: 0, end_row: s.rows, is_primary: true }, s.cols, s.rows)
            },
            None => {
                let s = sessions[0];
                (MonitorCellBounds { start_col: 0, end_col: s.cols, start_row: 0, end_row: s.rows, is_primary: true }, s.cols, s.rows)
            },
        }
    } else {
        proof {
            lemma_member_fits(layouts@, primary);
        }
        let (min_x, min_y, total_w, total_h) = virtual_desktop(layouts);
        let s = sessions[0];
        let b = primary_bounds_in_grid(primary, min_x, min_y, total_w, total_h, s.cols, s.rows);
        (b, s.cols, s.rows)
    }
}

proof fn lemma_session_for_range(sessions: Seq<GridSession>, id: u32, i: int)
    requires
        i >= 0,
    ensures
        session_for(sessions, id, i) matches Some(k) ==> i <= k < sessions.len(),
    decreases sessions.len() - i,
{
    if i < sessions.len() && sessions[i].output_id != id {
        lemma_session_for_range(sessions, id, i + 1);
    }
}

/// The cells of an output's viewport, at least one in each direction.
pub open spec fn viewport_extent(b: MonitorCellBounds) -> (usize, usize) {
    (
        if b.end_col > b.start_col { (b.end_col - b.start_col) as usize } else { 1 },
        if b.end_row > b.start_row { (b.end_row - b.start_row) as usize } else { 1 },
    )
}

/// The size of an output's viewport in cells (`saturating_sub(..).max(1)` per direction).
pub fn viewport_cells(b: MonitorCellBounds) -> (r: (usize, usize))
    ensures
        r == viewport_extent(b),
{
    let w = if b.end_col > b.start_col { b.end_col - b.start_col } else { 1 };
    let h = if b.end_row > b.start_row { b.end_row - b.start_row } else { 1 };
    (w, h)
}

/// The viewport of each output on the one spanning grid: its cells, whether it is the
/// primary output, and the viewport's size in cells.
pub open spec fn span_viewport(l: OutputLayout, ls: Seq<OutputLayout>, primary_id: u32, cols: usize, rows: usize) -> (MonitorCellBounds, usize, usize) {
    let d = desktop_exec(ls);
    let b = cell_bounds(l, d.0, d.1, d.2, d.3, cols, rows, l.id == primary_id);
    (b, viewport_extent(b).0, viewport_extent(b).1)
}

/// The viewports of all outputs on a `cols` by `rows` grid spanning them, in order:
/// where each output draws its part of the shared frame.
pub fn span_viewports(layouts: &Vec<OutputLayout>, primary_id: u32, cols: usize, rows: usize) -> (r: Vec<(MonitorCellBounds, usize, usize)>)
    requires
        geometry_fits(layouts@),
    ensures
        r@.len() == layouts@.len(),
        forall|i: int| 0 <= i < r@.len() ==> #[trigger] r@[i] == span_viewport(layouts@[i], layouts@, primary_id, cols, rows),
{
    let mut v: Vec<(MonitorCellBounds, usize, usize)> = Vec::new();
    if layouts.len() == 0 {
        return v;
    }
    let (min_x, min_y, total_w, total_h) = virtual_desktop(layouts);
    let mut i: usize = 0;
    while i < layouts.len()
        invariant
            i <= layouts@.len(),
            geometry_fits(layouts@),
            (min_x, min_y, total_w, total_h) == desktop_exec(layouts@),
            v@.len() == i,
            forall|j: int| 0 <= j < i ==> #[trigger] v@[j] == span_viewport(layouts@[j], layouts@, primary_id, cols, rows),
        decreases layouts.len() - i,
    {
        let l = layouts[i];
        proof {
            assert(layouts@.contains(l)) by {
                assert(layouts@[i as int] == l);
            }
            lemma_member_fits(layouts@, l);
        }
        let b = monitor_cell_bounds(l, min_x, min_y, total_w, total_h, cols, rows, l.id == primary_id);
        let (w, h) = viewport_cells(b);
        v.push((b, w, h));
        i = i + 1;
    }
    v
}

/// An output moved, resized and rescaled as the first topology monitor with its id
/// says; unchanged when none has it.
pub open spec fn placed(l: OutputLayout, ms: Seq<MonitorTopology>) -> OutputLayout {
    match first_monitor(ms, l.id, 0) {
        Some(k) => OutputLayout {
            x: ms[k].x,
            y: ms[k].y,
            width: ms[k].width,
            height: ms[k].height,
            scale: ms[k].scale,
            ..l
        },
        None => l,
    }
}

pub open spec fn first_monitor(ms: Seq<MonitorTopology>, id: u32, i: int) -> Option<int>
    decreases ms.len() - i,
{
    if i < 0 || i >= ms.len() {
        None
    } else if ms[i].id == id {
        Some(i)
    } else {
        first_monitor(ms, id, i + 1)
    }
}

proof fn lemma_first_monitor_range(ms: Seq<MonitorTopology>, id: u32, i: int)
    requires
        i >= 0,
    ensures
        first_monitor(ms, id, i) matches Some(k) ==> i <= k < ms.len(),
    decreases ms.len() - i,
{
    if i < ms.len() && ms[i].id != id {
        lemma_first_monitor_range(ms, id, i + 1);
    }
}

fn find_monitor(monitors: &Vec<MonitorTopology>, id: u32) -> (r: Option<usize>)
    ensures
        match r {
            Some(k) => first_monitor(monitors@, id, 0) == Some(k as int),
            None => first_monitor(monitors@, id, 0) is None,
        },
{
    let mut k: usize = 0;
    while k < monitors.len()
        invariant
            k <= monitors.len(),
            first_monitor(monitors@, id, 0) == first_monitor(monitors@, id, k as int),
        decreases monitors.len() - k,
    {
        if monitors[k].id == id {
            return Some(k);
        }
        k = k + 1;
    }
    None
}

/// Apply the topology to the outputs the compositor reported.
pub fn apply_topology(layouts: &mut Vec<OutputLayout>, monitors: &Vec<MonitorTopology>)
    ensures
        final(layouts)@.len() == old(layouts)@.len(),
        forall|i: int| 0 <= i < final(layouts)@.len() ==> #[trigger] final(layouts)@[i] == placed(old(layouts)@[i], monitors@),
{
    let ghost orig = layouts@;
    let mut i: usize = 0;
    while i < layouts.len()
        invariant
            i <= layouts@.len(),
            layouts@.len() == orig.len(),
            forall|j: int| i <= j < orig.len() ==> #[trigger] layouts@[j] == orig[j],
            forall|j: int| 0 <= j < i ==> #[trigger] layouts@[j] == placed(orig[j], monitors@),
        decreases layouts.len() - i,
    {
        let mut l = layouts[i];
        let found = find_monitor(monitors, l.id);
        proof {
            lemma_first_monitor_range(monitors@, l.id, 0);
        }
        if let Some(k) = found {
            let m = monitors[k];
            l.x = m.x;
            l.y = m.y;
            l.width = m.width;
            l.height = m.height;
            l.scale = m.scale;
        }
        layouts.set(i, l);
        i = i + 1;
    }
}

proof fn lemma_cell_of_bounds(rel1: int, rel2: int, cells: usize, total: u32)
    requires
        0 <= rel1 <= rel2 <= total,
        total > 0,
        rel2 <= i32::MAX,
        cells * total <= usize::MAX,
    ensures
        cell_of(rel1 as i32, cells, total) <= cell_of(rel2 as i32, cells, total) <= cells,
{
    let a = rel1 as i32;
    let b = rel2 as i32;
    assert(a as usize == rel1 && b as usize == rel2);
    assert(rel1 * cells <= rel2 * cells <= total * cells) by (nonlinear_arith)
        requires
            0 <= rel1 <= rel2 <= total,
            cells >= 0,
    ;
    assert(sat_mul(a as usize, cells) == rel1 * cells);
    assert(sat_mul(b as usize, cells) == rel2 * cells);
    let t = total as int;
    let c = cells as int;
    assert((rel1 * c) / t <= (rel2 * c) / t) by (nonlinear_arith)
        requires
            rel1 * c <= rel2 * c,
            t > 0,
    ;
    assert((rel2 * c) / t <= c) by (nonlinear_arith)
        requires
            rel2 * c <= t * c,
            t > 0,
            c >= 0,
    ;
}

/// Spanning all outputs, each output shows a well-formed part of the shared grid: its
/// cells start no later than they end, and end within the grid (when the grid's cells
/// times the desktop's pixels fit in `usize`, so that no product saturates).
pub proof fn law_output_cells_within_grid(ls: Seq<OutputLayout>, l: OutputLayout, cols: usize, rows: usize, is_primary: bool)
    requires
        geometry_fits(ls),
        ls.contains(l),
        cols * desktop_exec(ls).2 <= usize::MAX,
        rows * desktop_exec(ls).3 <= usize::MAX,
    ensures
        ({
            let d = desktop_exec(ls);
            let b = cell_bounds(l, d.0, d.1, d.2, d.3, cols, rows, is_primary);
            &&& b.start_col <= b.end_col <= cols
            &&& b.start_row <= b.end_row <= rows
        }),
{
    lemma_member_fits(ls, l);
    lemma_extremes(ls);
    let d = desktop(ls);
    let k = choose|k: int| 0 <= k < ls.len() && ls[k] == l;
    assert(right(ls[k]) <= max_right(ls));
    assert(bottom(ls[k]) <= max_bottom(ls));
    let x1 = l.x - d.0;
    let y1 = l.y - d.1;
    lemma_cell_of_bounds(x1, x1 + l.width, cols, d.2 as u32);
    lemma_cell_of_bounds(y1, y1 + l.height, rows, d.3 as u32);
}

} // verus!
