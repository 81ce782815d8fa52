//! The emoji picker's grid: how many emojis fit on a line, how far it
//! scrolls, which emoji a point selects, where each emoji is drawn, and how
//! touches and the mouse wheel move it. Lengths are fixed-point.
use vstd::prelude::*;
use crate::fixed::{UNIT, div_trunc, fixed_mul, floor_div, checked_mul};
use crate::gfx::{DrawInstruction, DrawMesh, Point, Rectangle, COORD_MAX, coord_ok};

verus! {

/// The most emojis a picker may hold.
pub const MAX_EMOJIS: u64 = 100_000;

/// Half a unit: the distance a touch must move vertically to scroll.
pub const SCROLL_SLOP: i64 = 500_000;

/// Whether an emoji size and a width or height are in the ranges the
/// picker works with.
pub open spec fn size_ok(size: i64) -> bool {
    0 < size <= COORD_MAX
}

/// The number of emojis on one line.
pub open spec fn per_line(rect_w: int, size: int) -> int {
    rect_w / size
}

/// The number of emojis on one line: as many whole emojis as fit.
pub fn emojis_per_line(rect_w: i64, emoji_size: i64) -> (r: i64)
    requires
        size_ok(emoji_size),
    ensures
        r == per_line(rect_w as int, emoji_size as int),
{
    floor_div(rect_w, emoji_size)
}

/// The horizontal distance between neighbouring emojis, spreading a line's
/// emojis across the width; `None` where one emoji fills the line.
pub fn calc_off_x(rect_w: i64, emoji_size: i64) -> (r: Option<i64>)
    requires
        size_ok(emoji_size),
        coord_ok(rect_w as int),
    ensures
        ({
            let n = per_line(rect_w as int, emoji_size as int);
            if n == 1 {
                r is None
            } else {
                r == Some(div_trunc(rect_w - emoji_size, n - 1) as i64)
            }
        }),
        r matches Some(v) ==> -2 * COORD_MAX <= v <= 2 * COORD_MAX,
{
    let n = emojis_per_line(rect_w, emoji_size);
    if n == 1 {
        return None;
    }
    proof {
        assert(-COORD_MAX <= n <= COORD_MAX) by (nonlinear_arith)
            requires n == rect_w as int / emoji_size as int, emoji_size >= 1, -COORD_MAX <= rect_w <= COORD_MAX;
    }
    let d = rect_w - emoji_size;
    let m = n - 1;
    proof {
        lemma_div_trunc_bound(d as int, m as int);
    }
    let ud: u64 = if d < 0 { (-d) as u64 } else { d as u64 };
    let um: u64 = if m < 0 { (-(m as i128)) as u64 } else { m as u64 };
    let q = (ud / um) as i64;
    if (d < 0) == (m < 0) {
        Some(q)
    } else {
        Some(-q)
    }
}

proof fn lemma_div_trunc_bound(d: int, m: int)
    requires
        m != 0,
        -2 * COORD_MAX <= d <= 2 * COORD_MAX,
    ensures
        -2 * COORD_MAX <= div_trunc(d, m) <= 2 * COORD_MAX,
{
    let q = crate::fixed::abs(d) / crate::fixed::abs(m);
    assert(q <= crate::fixed::abs(d)) by (nonlinear_arith)
        requires q == crate::fixed::abs(d) / crate::fixed::abs(m), crate::fixed::abs(m) >= 1;
}

/// The number of whole rows `n` emojis fill at `cols` per line: `n / cols`
/// rounded down, for `cols` of either sign.
pub open spec fn rows_of(n: int, cols: int) -> int {
    if cols > 0 {
        n / cols
    } else {
        -((n + (-cols) - 1) / (-cols))
    }
}

/// How far the grid scrolls: the height of its whole rows beyond the
/// rectangle's height, or 0 where they fit. `None` means no bound: no
/// emoji fits on a line, so the rows never end.
pub open spec fn max_scroll_spec(n_emojis: int, rect_w: int, rect_h: int, size: int) -> Option<int> {
    let cols = per_line(rect_w, size);
    if cols == 0 {
        None
    } else {
        let height = rows_of(n_emojis, cols) * size;
        if height < rect_h { Some(0) } else { Some(height - rect_h) }
    }
}

/// The largest scroll as a value of the scroll property, where there is one.
pub open spec fn max_bound(n_emojis: int, rect_w: int, rect_h: int, size: int) -> Option<i64> {
    match max_scroll_spec(n_emojis, rect_w, rect_h, size) {
        Some(v) => Some(v as i64),
        None => None,
    }
}

/// How far the grid scrolls (see [`max_scroll_spec`]).
pub fn max_scroll(n_emojis: u64, rect_w: i64, rect_h: i64, emoji_size: i64) -> (r: Option<i64>)
    requires
        n_emojis <= MAX_EMOJIS,
        size_ok(emoji_size),
        coord_ok(rect_w as int),
        coord_ok(rect_h as int),
    ensures
        match max_scroll_spec(n_emojis as int, rect_w as int, rect_h as int, emoji_size as int) {
            Some(v) => r == Some(v as i64) && 0 <= v <= i64::MAX,
            None => r is None,
        },
        r == max_bound(n_emojis as int, rect_w as int, rect_h as int, emoji_size as int),
{
    let cols = emojis_per_line(rect_w, emoji_size);
    if cols == 0 {
        return None;
    }
    proof {
        assert(-COORD_MAX <= cols <= COORD_MAX) by (nonlinear_arith)
            requires cols == rect_w as int / emoji_size as int, emoji_size >= 1, -COORD_MAX <= rect_w <= COORD_MAX;
    }
    let rows: i64 = if cols > 0 {
        let q = n_emojis / (cols as u64);
        proof {
            assert(q <= n_emojis) by (nonlinear_arith)
                requires q == n_emojis / (cols as u64), cols >= 1;
        }
        q as i64
    } else {
        let m = (-cols) as u64;
        let q = (n_emojis + m - 1) / m;
        proof {
            assert(q <= n_emojis) by (nonlinear_arith)
                requires q as int == (n_emojis as int + m as int - 1) / (m as int), m >= 1;
        }
        -(q as i64)
    };
    proof {
        assert(-100_000 * 0x100_0000_0000 <= rows * emoji_size <= 100_000 * 0x100_0000_0000) by (nonlinear_arith)
            requires -100_000 <= rows <= 100_000, 0 < emoji_size <= 0x100_0000_0000;
    }
    let height = rows * emoji_size;
    if height < rect_h {
        Some(0)
    } else {
        Some(height - rect_h)
    }
}

/// The emoji under `pos` (relative to the picker's corner) with the grid
/// scrolled by `scroll`: column from the line's width shared among its
/// emojis, row from the emoji size, read in lines; a negative index reads
/// as the first emoji. Where no emoji fits on a line, every point reads as
/// the first emoji (the one column is endlessly wide). `None` where it is
/// past the last emoji or the width is negative.
pub open spec fn emoji_at_spec(pos: Point, scroll: int, rect_w: int, size: int, n_emojis: int) -> Option<int> {
    let n_cols = per_line(rect_w, size);
    if n_cols < 0 {
        None
    } else if n_cols == 0 {
        if 0 < n_emojis { Some(0) } else { None }
    } else {
        let real_width = rect_w / n_cols;
        let col = pos.x as int / real_width;
        let row = (pos.y as int + scroll) / size;
        let idx = col + row * n_cols;
        let k = if idx < 0 { 0 } else { idx };
        if k < n_emojis { Some(k) } else { None }
    }
}

/// The emoji under `pos` (see [`emoji_at_spec`]).
pub fn emoji_at(pos: Point, scroll: i64, rect_w: i64, emoji_size: i64, n_emojis: u64) -> (r: Option<u64>)
    requires
        size_ok(emoji_size),
        coord_ok(rect_w as int),
        -2 * COORD_MAX <= pos.x <= 2 * COORD_MAX,
        -2 * COORD_MAX <= pos.y <= 2 * COORD_MAX,
        coord_ok(scroll as int),
    ensures
        match emoji_at_spec(pos, scroll as int, rect_w as int, emoji_size as int, n_emojis as int) {
            Some(k) => r == Some(k as u64),
            None => r is None,
        },
{
    let n_cols = emojis_per_line(rect_w, emoji_size);
    if n_cols < 0 {
        return None;
    }
    if n_cols == 0 {
        return if 0 < n_emojis { Some(0) } else { None };
    }
    proof {
        assert(n_cols * emoji_size <= rect_w) by (nonlinear_arith)
            requires n_cols == rect_w as int / emoji_size as int, emoji_size > 0;
        assert(rect_w as int / n_cols as int >= emoji_size) by (nonlinear_arith)
            requires n_cols * emoji_size <= rect_w, n_cols > 0, emoji_size > 0;
        assert(n_cols <= rect_w) by (nonlinear_arith)
            requires n_cols * emoji_size <= rect_w, n_cols > 0, emoji_size > 0;
    }
    let real_width = floor_div(rect_w, n_cols);
    let col = floor_div(pos.x, real_width);
    let row = floor_div(pos.y + scroll, emoji_size);
    proof {
        assert(-2 * COORD_MAX <= col <= 2 * COORD_MAX) by (nonlinear_arith)
            requires col == pos.x as int / real_width as int, real_width >= 1, -2 * COORD_MAX <= pos.x <= 2 * COORD_MAX;
        assert(-3 * COORD_MAX <= row <= 3 * COORD_MAX) by (nonlinear_arith)
            requires row == (pos.y + scroll) as int / emoji_size as int, emoji_size >= 1,
                -3 * COORD_MAX <= pos.y + scroll <= 3 * COORD_MAX;
        assert(-3 * COORD_MAX * COORD_MAX <= row * n_cols <= 3 * COORD_MAX * COORD_MAX) by (nonlinear_arith)
            requires -3 * COORD_MAX <= row <= 3 * COORD_MAX, 0 < n_cols <= COORD_MAX;
    }
    let idx: i128 = col as i128 + (row as i128) * (n_cols as i128);
    let k: i128 = if idx < 0 { 0 } else { idx };
    if k < n_emojis as i128 {
        Some(k as u64)
    } else {
        None
    }
}

/// `s` held to at least 0 and, where there is a bound, at most `max`.
pub open spec fn hold(s: int, max: Option<i64>) -> int {
    if s < 0 {
        0
    } else {
        match max {
            Some(m) => if s > m { m as int } else { s },
            None => s,
        }
    }
}

/// The scroll after a mouse wheel movement of `wheel_y` at `speed`,
/// held within `[0, max]`.
pub open spec fn wheel_scroll_spec(scroll: int, speed: int, wheel_y: int, max: Option<i64>) -> int {
    hold(scroll - fixed_mul(speed, wheel_y), max)
}

/// The scroll after a mouse wheel movement (see [`wheel_scroll_spec`]).
pub fn wheel_scroll(scroll: i64, speed: i64, wheel_y: i64, max: Option<i64>) -> (r: i64)
    requires
        coord_ok(scroll as int),
        coord_ok(speed as int),
        coord_ok(wheel_y as int),
        max matches Some(m) ==> 0 <= m,
    ensures
        r == wheel_scroll_spec(scroll as int, speed as int, wheel_y as int, max),
{
    proof {
        let p = speed * wheel_y;
        assert(-0x1_0000_0000_0000_0000_0000 <= p <= 0x1_0000_0000_0000_0000_0000) by (nonlinear_arith)
            requires p == speed * wheel_y, -0x100_0000_0000 <= speed <= 0x100_0000_0000,
                -0x100_0000_0000 <= wheel_y <= 0x100_0000_0000;
        let q = crate::fixed::abs(p) / crate::fixed::abs(UNIT as int);
        assert(q <= 1_208_925_819_614_629_174int) by (nonlinear_arith)
            requires q == crate::fixed::abs(p) / crate::fixed::abs(UNIT as int),
                crate::fixed::abs(p) <= 0x1_0000_0000_0000_0000_0000, crate::fixed::abs(UNIT as int) == 1_000_000;
    }
    let t = match checked_mul(speed, wheel_y) {
        Some(t) => t,
        None => 0,
    };
    let s = scroll as i128 - t as i128;
    if s < 0 {
        return 0;
    }
    match max {
        Some(m) => if s > m as i128 { m } else { s as i64 },
        None => s as i64,
    }
}

/// Where emojis `i..n` are drawn, the next one at (x, y): each step moves
/// right by `off_x`, wrapping to a new line past the width (after every
/// emoji where there is no spacing: one column); drawing stops
/// after the first emoji whose successor would start below the rectangle
/// by more than an emoji.
pub open spec fn layout_from(i: int, n: int, x: int, y: int, rect_w: int, rect_h: int, size: int, off_x: Option<i64>) -> Seq<Point>
    decreases n - i,
{
    if i >= n {
        seq![]
    } else {
        let p = Point { x: x as i64, y: y as i64 };
        let wrap = match off_x {
            Some(o) => x + o > rect_w,
            None => true,
        };
        let x2 = if wrap { size / 2 } else { x + off_x->0 };
        let y2 = if wrap { y + size } else { y };
        if y2 > rect_h + size {
            seq![p]
        } else {
            seq![p] + layout_from(i + 1, n, x2, y2, rect_w, rect_h, size, off_x)
        }
    }
}

/// Where each emoji is drawn, the first at half an emoji from the corner,
/// raised by the scroll.
pub open spec fn layout(n: int, rect_w: int, rect_h: int, size: int, off_x: Option<i64>, scroll: int) -> Seq<Point> {
    layout_from(0, n, size / 2, size / 2 - scroll, rect_w, rect_h, size, off_x)
}

/// Where each emoji is drawn (see [`layout`]).
pub fn emoji_positions(n: u64, rect_w: i64, rect_h: i64, emoji_size: i64, off_x: Option<i64>, scroll: i64) -> (r: Vec<Point>)
    requires
        n <= MAX_EMOJIS,
        size_ok(emoji_size),
        coord_ok(rect_w as int),
        coord_ok(rect_h as int),
        coord_ok(scroll as int),
        off_x matches Some(o) ==> -2 * COORD_MAX <= o <= 2 * COORD_MAX,
    ensures
        r@ == layout(n as int, rect_w as int, rect_h as int, emoji_size as int, off_x, scroll as int),
{
    let half = emoji_size / 2;
    let mut x: i64 = half;
    let mut y: i64 = half - scroll;
    let mut out: Vec<Point> = Vec::new();
    let mut i: u64 = 0;
    let ghost all = layout(n as int, rect_w as int, rect_h as int, emoji_size as int, off_x, scroll as int);
    assert(out@ + layout_from(0, n as int, x as int, y as int, rect_w as int, rect_h as int, emoji_size as int, off_x) =~= all);
    while i < n
        invariant_except_break
            out@ + layout_from(i as int, n as int, x as int, y as int, rect_w as int, rect_h as int, emoji_size as int, off_x) == all,
        invariant
            i <= n <= MAX_EMOJIS,
            size_ok(emoji_size),
            coord_ok(rect_w as int),
            coord_ok(rect_h as int),
            off_x matches Some(o) ==> -2 * COORD_MAX <= o <= 2 * COORD_MAX,
            half == emoji_size / 2,
            -3 * COORD_MAX - 0x200_0000_0000 * i <= x <= 3 * COORD_MAX,
            -3 * COORD_MAX <= y <= 3 * COORD_MAX + 0x100_0000_0000 * i,
            all == layout(n as int, rect_w as int, rect_h as int, emoji_size as int, off_x, scroll as int),
        ensures
            out@ == all,
        decreases n - i,
    {
        let p = Point { x, y };
        let ghost wrap = match off_x {
            Some(o) => x + o > rect_w,
            None => true,
        };
        let ghost rest = layout_from(i as int + 1, n as int,
            if wrap { half as int } else { x + off_x->0 },
            if wrap { y + emoji_size } else { y as int },
            rect_w as int, rect_h as int, emoji_size as int, off_x);
        let ghost pre = out@;
        out.push(p);
        let (wraps, nx): (bool, i128) = match off_x {
            Some(o) => {
                let nx = x as i128 + o as i128;
                (nx > rect_w as i128, nx)
            },
            None => (true, 0),
        };
        if wraps {
            x = half;
            y = y + emoji_size;
        } else {
            x = nx as i64;
        }
        i += 1;
        if y > rect_h + emoji_size {
            assert(out@ =~= pre + seq![p]);
            break;
        }
        assert(pre + (seq![p] + rest) =~= out@ + rest);
    }
    if i >= n {
        assert(out@ + Seq::<Point>::empty() =~= out@);
    }
    out
}

/// Whether `instrs` show the picker: the view of its rectangle, then for
/// each position a move there and the matching mesh.
pub open spec fn shows_grid(instrs: Seq<DrawInstruction>, rect: Rectangle, positions: Seq<Point>, meshes: Seq<DrawMesh>) -> bool {
    &&& instrs.len() == 1 + 2 * positions.len()
    &&& instrs[0] == DrawInstruction::ApplyView(rect)
    &&& forall|k: int| 0 <= k < positions.len() ==> instrs[1 + 2 * k] == DrawInstruction::Move(#[trigger] positions[k])
    &&& forall|k: int| 0 <= k < positions.len() ==> instrs[2 + 2 * k] == DrawInstruction::Draw(#[trigger] meshes[k])
}

/// The scroll a grid is drawn at: `scroll`, held to at most the largest
/// scroll where there is one.
pub open spec fn drawn_scroll(scroll: i64, max: Option<int>) -> i64 {
    match max {
        Some(m) => if scroll > m { m as i64 } else { scroll },
        None => scroll,
    }
}

/// The spacing of a grid's columns: none where one emoji fills a line.
pub open spec fn spacing(rect_w: int, size: int) -> Option<i64> {
    let cols = per_line(rect_w, size);
    if cols == 1 { None } else { Some(div_trunc(rect_w - size, cols - 1) as i64) }
}

/// Whether `s` and `instrs` are the scroll and instructions of the grid of
/// `meshes` in `rect` (see [`grid_instrs`]).
pub open spec fn grid_instrs_spec(rect: Rectangle, scroll: i64, size: i64, meshes: Seq<DrawMesh>, s: i64, instrs: Seq<DrawInstruction>) -> bool {
    let n = meshes.len() as int;
    let s0 = drawn_scroll(scroll, max_scroll_spec(n, rect.w as int, rect.h as int, size as int));
    &&& s == s0
    &&& shows_grid(instrs, rect, layout(n, rect.w as int, rect.h as int, size as int, spacing(rect.w as int, size as int), s0 as int), meshes)
}

/// The picker's instructions and its scroll for this frame. The scroll is
/// first held to at most the largest scroll (the rectangle may have
/// shrunk); then emojis are laid out in the rectangle, in one column where
/// one emoji fills a line.
pub fn grid_instrs(rect: Rectangle, scroll: i64, emoji_size: i64, meshes: Vec<DrawMesh>) -> (r: (i64, Vec<DrawInstruction>))
    requires
        meshes@.len() <= MAX_EMOJIS,
        size_ok(emoji_size),
        rect.bounded(),
        coord_ok(scroll as int),
    ensures
        grid_instrs_spec(rect, scroll, emoji_size, meshes@, r.0, r.1@),
{
    let n = meshes.len() as u64;
    let s = match max_scroll(n, rect.w, rect.h, emoji_size) {
        Some(max) => if scroll > max { max } else { scroll },
        None => scroll,
    };
    let off_x = calc_off_x(rect.w, emoji_size);
    let positions = emoji_positions(n, rect.w, rect.h, emoji_size, off_x, s);
    proof {
        lemma_layout_len(0, n as int, emoji_size as int / 2, emoji_size as int / 2 - s, rect.w as int, rect.h as int, emoji_size as int, off_x);
    }
    let mut instrs: Vec<DrawInstruction> = Vec::new();
    instrs.push(DrawInstruction::ApplyView(rect));
    let mut meshes = meshes;
    let ghost all = meshes@;
    let mut k: usize = 0;
    while k < positions.len()
        invariant
            positions@.len() <= all.len(),
            k <= positions@.len(),
            meshes@ == all.skip(k as int),
            instrs@.len() == 1 + 2 * k,
            instrs@[0] == DrawInstruction::ApplyView(rect),
            forall|m: int| 0 <= m < k ==> instrs@[1 + 2 * m] == DrawInstruction::Move(#[trigger] positions@[m]),
            forall|m: int| 0 <= m < k ==> instrs@[2 + 2 * m] == DrawInstruction::Draw(#[trigger] all[m]),
        decreases positions@.len() - k,
    {
        let ghost before = meshes@;
        let mesh = meshes.remove(0);
        assert(before.skip(1) =~= all.skip(k + 1));
        instrs.push(DrawInstruction::Move(positions[k]));
        instrs.push(DrawInstruction::Draw(mesh));
        k += 1;
    }
    (s, instrs)
}

proof fn lemma_layout_len(i: int, n: int, x: int, y: int, rect_w: int, rect_h: int, size: int, off_x: Option<i64>)
    requires
        0 <= i <= n,
    ensures
        layout_from(i, n, x, y, rect_w, rect_h, size, off_x).len() <= n - i,
    decreases n - i,
{
    if i < n {
        let wrap = match off_x {
            Some(o) => x + o > rect_w,
            None => true,
        };
        let x2 = if wrap { size / 2 } else { x + off_x->0 };
        let y2 = if wrap { y + size } else { y };
        lemma_layout_len(i + 1, n, x2, y2, rect_w, rect_h, size, off_x);
    }
}

/// The point a mouse button release clicks, relative to the picker's
/// corner; `None` where it is outside the rectangle.
pub fn click_point(rect: &Rectangle, pos: &Point) -> (r: Option<Point>)
    requires
        rect.bounded(),
        coord_ok(pos.x as int),
        coord_ok(pos.y as int),
    ensures
        if rect.contains_spec(*pos) {
            r == Some(Point { x: (pos.x - rect.x) as i64, y: (pos.y - rect.y) as i64 })
        } else {
            r is None
        },
{
    if !rect.contains(pos) {
        return None;
    }
    Some(Point { x: pos.x - rect.x, y: pos.y - rect.y })
}

/// A touch in progress: where it started, the scroll then, and whether it
/// has become a scroll rather than a tap.
#[derive(Debug, Clone, Copy, PartialEq, Eq, Structural)]
pub struct TouchInfo {
    pub start_pos: Point,
    pub start_scroll: i64,
    pub is_scroll: bool,
}

#[derive(Debug, Clone, Copy, PartialEq, Eq, Structural)]
pub enum TouchPhase {
    Started,
    Moved,
    Ended,
    Cancelled,
}

/// What the picker does about a touch event.
#[derive(Debug, Clone, Copy, PartialEq, Eq, Structural)]
pub struct TouchOutcome {
    /// The tracked touch afterwards.
    pub info: Option<TouchInfo>,
    /// Whether the picker took the event.
    pub handled: bool,
    /// The new scroll, to set and redraw with.
    pub scroll: Option<i64>,
    /// A tap to resolve into an emoji, relative to the picker's corner.
    pub click: Option<Point>,
}

/// The picker's decision on a touch event. Only the first finger counts.
/// A touch starts inside the rectangle; moving it more than half a unit
/// vertically turns it into a scroll from where it started, held within
/// `[0, max]`; lifting a touch that never scrolled is a tap.
pub open spec fn touch_spec(info: Option<TouchInfo>, phase: TouchPhase, id: u64, touch: Point, rect: Rectangle, scroll: i64, max: Option<i64>) -> TouchOutcome {
    let pos = Point { x: (touch.x - rect.x) as i64, y: (touch.y - rect.y) as i64 };
    let ignore = TouchOutcome { info, handled: false, scroll: None, click: None };
    if id != 0 {
        ignore
    } else {
        match phase {
            TouchPhase::Started => if !rect.contains_spec(touch) {
                ignore
            } else {
                TouchOutcome {
                    info: Some(TouchInfo { start_pos: pos, start_scroll: scroll, is_scroll: false }),
                    handled: true,
                    scroll: None,
                    click: None,
                }
            },
            TouchPhase::Moved => match info {
                None => ignore,
                Some(t) => {
                    let y_diff = t.start_pos.y - pos.y;
                    let is_scroll = t.is_scroll || y_diff > SCROLL_SLOP || y_diff < -SCROLL_SLOP;
                    let s = t.start_scroll + y_diff;
                    let s2 = hold(s, max);
                    TouchOutcome {
                        info: Some(TouchInfo { is_scroll, ..t }),
                        handled: true,
                        scroll: if is_scroll { Some(s2 as i64) } else { None },
                        click: None,
                    }
                },
            },
            TouchPhase::Ended | TouchPhase::Cancelled => match info {
                None => ignore,
                Some(t) => TouchOutcome {
                    info: None,
                    handled: true,
                    scroll: None,
                    click: if t.is_scroll { None } else { Some(pos) },
                },
            },
        }
    }
}

/// The picker's decision on a touch event (see [`touch_spec`]).
pub fn handle_touch(info: Option<TouchInfo>, phase: TouchPhase, id: u64, touch: Point, rect: Rectangle, scroll: i64, max: Option<i64>) -> (r: TouchOutcome)
    requires
        coord_ok(touch.x as int),
        coord_ok(touch.y as int),
        rect.bounded(),
        coord_ok(scroll as int),
        max matches Some(m) ==> 0 <= m,
        info matches Some(t) ==> coord_ok(t.start_pos.y as int) && coord_ok(t.start_scroll as int),
    ensures
        r == touch_spec(info, phase, id, touch, rect, scroll, max),
{
    let ignore = TouchOutcome { info, handled: false, scroll: None, click: None };
    if id != 0 {
        return ignore;
    }
    let pos = Point { x: touch.x - rect.x, y: touch.y - rect.y };
    match phase {
        TouchPhase::Started => {
            if !rect.contains(&touch) {
                return ignore;
            }
            TouchOutcome {
                info: Some(TouchInfo { start_pos: pos, start_scroll: scroll, is_scroll: false }),
                handled: true,
                scroll: None,
                click: None,
            }
        },
        TouchPhase::Moved => match info {
            None => ignore,
            Some(t) => {
                let y_diff = t.start_pos.y - pos.y;
                let is_scroll = t.is_scroll || y_diff > SCROLL_SLOP || y_diff < -SCROLL_SLOP;
                let s = t.start_scroll + y_diff;
                let s2 = if s < 0 {
                    0
                } else {
                    match max {
                        Some(m) => if s > m { m } else { s },
                        None => s,
                    }
                };
                TouchOutcome {
                    info: Some(TouchInfo { start_pos: t.start_pos, start_scroll: t.start_scroll, is_scroll }),
                    handled: true,
                    scroll: if is_scroll { Some(s2) } else { None },
                    click: None,
                }
            },
        },
        TouchPhase::Ended | TouchPhase::Cancelled => match info {
            None => ignore,
            Some(t) => TouchOutcome {
                info: None,
                handled: true,
                scroll: None,
                click: if t.is_scroll { None } else { Some(pos) },
            },
        },
    }
}

} // verus!
