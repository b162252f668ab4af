//! The layout engine: turns the ordered sequence of windows visible on a
//! tag into target geometries, under one of three strategies.
//!
//! - Tiling: master-stack. The first window takes a master region on the
//!   left; the rest share a stack column on the right, split vertically
//!   in equal shares, remainder pixels going to the first regions.
//! - Monocle: every window gets the full gap-inset screen rectangle, in
//!   registration order; the window mapped last is the top of the stack.
//! - Floating: windows keep their externally requested geometry; only a
//!   window that was never placed is centered, and only when the
//!   configuration asks for that.

use vstd::prelude::*;
use vstd::arithmetic::div_mod::lemma_fundamental_div_mod;
use vstd::arithmetic::mul::lemma_mul_inequality;
use vstd::arithmetic::mul::lemma_mul_upper_bound;

use crate::config::GapsConfig;
use crate::config::TilingConfig;
use crate::geometry::Rect;

verus! {

/// The closed set of layout strategies, selected once per session.
#[derive(Clone, Copy, PartialEq, Eq, Structural, Debug)]
pub enum LayoutStrategy {
    Tiling,
    Floating,
    Monocle,
}

/// What the layout engine needs to know of a window: its id, its last
/// known geometry, and whether a position was ever assigned to it.
#[derive(Clone, Copy, PartialEq, Eq, Structural, Debug)]
pub struct LayoutHandle {
    pub window: u32,
    pub geometry: Rect,
    pub placed: bool,
}

/// One geometry assignment to be written back to the display server.
#[derive(Clone, Copy, PartialEq, Eq, Structural, Debug)]
pub struct GeometryWrite {
    pub window: u32,
    pub geometry: Rect,
}

pub open spec fn min_int(a: int, b: int) -> int {
    if a <= b {
        a
    } else {
        b
    }
}

/// Left edge of the screen area inset by the outer gap.
pub open spec fn inset_left(screen: Rect, g: GapsConfig) -> int {
    screen.x + g.outer_size as int
}

/// Top edge of the inset screen area.
pub open spec fn inset_top(screen: Rect, g: GapsConfig) -> int {
    screen.y + g.outer_size as int
}

/// Width of the inset screen area.
pub open spec fn inset_width(screen: Rect, g: GapsConfig) -> int {
    screen.width as int - 2 * g.outer_size as int
}

/// Height of the inset screen area.
pub open spec fn inset_height(screen: Rect, g: GapsConfig) -> int {
    screen.height as int - 2 * g.outer_size as int
}

/// Width of the master region: the whole inset area for a single window,
/// else the floor of half the inset width less the inner gap.
pub open spec fn master_width(screen: Rect, g: GapsConfig, n: int) -> int {
    if n == 1 {
        inset_width(screen, g)
    } else {
        (inset_width(screen, g) - g.inner_size as int) / 2
    }
}

/// Left edge of the stack column.
pub open spec fn stack_left(screen: Rect, g: GapsConfig, n: int) -> int {
    inset_left(screen, g) + master_width(screen, g, n) + g.inner_size as int
}

/// Width of the stack column: what the master and the gap leave over.
pub open spec fn stack_width(screen: Rect, g: GapsConfig, n: int) -> int {
    inset_width(screen, g) - master_width(screen, g, n) - g.inner_size as int
}

/// Vertical space the stack windows share, after the gaps between them.
pub open spec fn stack_avail(screen: Rect, g: GapsConfig, n: int) -> int {
    inset_height(screen, g) - (n - 2) * g.inner_size as int
}

/// The equal share of each stack window.
pub open spec fn stack_base(screen: Rect, g: GapsConfig, n: int) -> int {
    stack_avail(screen, g, n) / (n - 1)
}

/// Leftover pixels, assigned one each to the first stack windows.
pub open spec fn stack_rem(screen: Rect, g: GapsConfig, n: int) -> int {
    stack_avail(screen, g, n) % (n - 1)
}

/// Left edge of window `i` of `n` (window 0 is the master).
pub open spec fn tile_x(screen: Rect, g: GapsConfig, n: int, i: int) -> int {
    if i == 0 {
        inset_left(screen, g)
    } else {
        stack_left(screen, g, n)
    }
}

/// Top edge of window `i` of `n`.
pub open spec fn tile_y(screen: Rect, g: GapsConfig, n: int, i: int) -> int {
    if i == 0 {
        inset_top(screen, g)
    } else {
        inset_top(screen, g) + (i - 1) * (stack_base(screen, g, n) + g.inner_size as int)
            + min_int(i - 1, stack_rem(screen, g, n))
    }
}

/// Width of window `i` of `n`.
pub open spec fn tile_width(screen: Rect, g: GapsConfig, n: int, i: int) -> int {
    if i == 0 {
        master_width(screen, g, n)
    } else {
        stack_width(screen, g, n)
    }
}

/// Height of window `i` of `n`: the equal share, plus one remainder
/// pixel for the first `stack_rem` stack windows.
pub open spec fn tile_height(screen: Rect, g: GapsConfig, n: int, i: int) -> int {
    if i == 0 {
        inset_height(screen, g)
    } else if i - 1 < stack_rem(screen, g, n) {
        stack_base(screen, g, n) + 1
    } else {
        stack_base(screen, g, n)
    }
}

/// The machine limits under which `n` windows tile onto `screen`: the
/// screen edges fit the signed 16-bit coordinates of a geometry write,
/// and the gaps leave a non-negative area to divide.
pub open spec fn tiling_fits(screen: Rect, g: GapsConfig, n: int) -> bool {
    &&& screen.x + screen.width as int <= i16::MAX as int
    &&& screen.y + screen.height as int <= i16::MAX as int
    &&& n >= 1 ==> 2 * g.outer_size as int <= screen.width as int && 2 * g.outer_size as int
        <= screen.height as int
    &&& n >= 2 ==> 2 * g.outer_size as int + g.inner_size as int <= screen.width as int && 2
        * g.outer_size as int + (n - 2) * g.inner_size as int <= screen.height as int
}

/// The geometry write tiling assigns to window `i` of `n`.
pub open spec fn tiling_write(
    screen: Rect,
    g: GapsConfig,
    n: int,
    i: int,
    window: u32,
) -> GeometryWrite {
    GeometryWrite {
        window,
        geometry: Rect {
            x: tile_x(screen, g, n, i) as i16,
            y: tile_y(screen, g, n, i) as i16,
            width: tile_width(screen, g, n, i) as u16,
            height: tile_height(screen, g, n, i) as u16,
        },
    }
}

/// The writes of one whole tiling pass, in registration order.
pub open spec fn spec_tiling_writes(ws: Seq<LayoutHandle>, screen: Rect, g: GapsConfig) -> Seq<
    GeometryWrite,
> {
    Seq::new(ws.len(), |i: int| tiling_write(screen, g, ws.len() as int, i, ws[i].window))
}

/// Division facts about the stack split: the share and remainder are
/// non-negative, the remainder is less than the window count, and the
/// shares with the remainder reconstruct the available height exactly.
proof fn lemma_stack_division(screen: Rect, g: GapsConfig, n: int)
    requires
        tiling_fits(screen, g, n),
        n >= 2,
    ensures
        stack_avail(screen, g, n) >= 0,
        stack_base(screen, g, n) >= 0,
        0 <= stack_rem(screen, g, n) < n - 1,
        (n - 1) * stack_base(screen, g, n) + stack_rem(screen, g, n) == stack_avail(screen, g, n),
{
    let avail = stack_avail(screen, g, n);
    let k = n - 1;
    assert(avail >= 0) by {
        assert((n - 2) * g.inner_size as int <= screen.height as int - 2 * g.outer_size as int);
    }
    lemma_fundamental_div_mod(avail, k);
}

/// Per-window bounds and adjacency for the stack column: the first stack
/// window starts at the inset top, each next one starts exactly one
/// inner gap below the previous, and the last one ends at the inset
/// bottom.
proof fn lemma_stack_metrics(screen: Rect, g: GapsConfig, n: int)
    requires
        tiling_fits(screen, g, n),
        n >= 2,
    ensures
        tile_y(screen, g, n, 1) == inset_top(screen, g),
        forall|i: int|
            1 <= i < n - 1 ==> #[trigger] tile_y(screen, g, n, i + 1) == tile_y(screen, g, n, i)
                + tile_height(screen, g, n, i) + g.inner_size as int,
        tile_y(screen, g, n, n - 1) + tile_height(screen, g, n, n - 1) == inset_top(screen, g)
            + inset_height(screen, g),
        forall|i: int|
            1 <= i < n ==> inset_top(screen, g) <= #[trigger] tile_y(screen, g, n, i),
        forall|i: int|
            1 <= i < n ==> #[trigger] tile_y(screen, g, n, i) + tile_height(screen, g, n, i)
                <= inset_top(screen, g) + inset_height(screen, g),
{
    let b = stack_base(screen, g, n);
    let rem = stack_rem(screen, g, n);
    let inn = g.inner_size as int;
    let top = inset_top(screen, g);
    let h = inset_height(screen, g);
    let k = n - 1;
    lemma_stack_division(screen, g, n);
    assert forall|i: int| 1 <= i < n - 1 implies #[trigger] tile_y(screen, g, n, i + 1) == tile_y(
        screen,
        g,
        n,
        i,
    ) + tile_height(screen, g, n, i) + inn by {
        assert(i * (b + inn) == (i - 1) * (b + inn) + (b + inn)) by (nonlinear_arith);
    }
    assert(tile_y(screen, g, n, n - 1) + tile_height(screen, g, n, n - 1) == top + h) by {
        assert(min_int(k - 1, rem) == rem);
        assert((k - 1) * (b + inn) == k * b - b + (k - 1) * inn) by (nonlinear_arith);
        assert(k * b + rem == stack_avail(screen, g, n));
        assert(stack_avail(screen, g, n) + (n - 2) * inn == h);
    }
    assert forall|i: int| 1 <= i < n implies inset_top(screen, g) <= #[trigger] tile_y(
        screen,
        g,
        n,
        i,
    ) by {
        lemma_mul_inequality(0, i - 1, b + inn);
    }
    assert forall|i: int| 1 <= i < n implies #[trigger] tile_y(screen, g, n, i) + tile_height(
        screen,
        g,
        n,
        i,
    ) <= inset_top(screen, g) + inset_height(screen, g) by {
        lemma_mul_inequality(i - 1, k - 1, b + inn);
        assert(min_int(i - 1, rem) + (if i - 1 < rem {
            1int
        } else {
            0int
        }) <= rem);
        assert((k - 1) * (b + inn) == k * b - b + (k - 1) * inn) by (nonlinear_arith);
    }
}

/// Horizontal bounds of the master region and the stack column: the
/// master starts at the inset left edge, the stack starts exactly one
/// inner gap to its right, and the stack ends at the inset right edge.
proof fn lemma_column_metrics(screen: Rect, g: GapsConfig, n: int)
    requires
        tiling_fits(screen, g, n),
        n >= 2,
    ensures
        master_width(screen, g, n) >= 0,
        stack_width(screen, g, n) >= 0,
        inset_left(screen, g) + master_width(screen, g, n) + g.inner_size as int == stack_left(
            screen,
            g,
            n,
        ),
        stack_left(screen, g, n) + stack_width(screen, g, n) == inset_left(screen, g)
            + inset_width(screen, g),
        master_width(screen, g, n) <= inset_width(screen, g),
        stack_width(screen, g, n) <= inset_width(screen, g),
{
    let w = inset_width(screen, g);
    let inn = g.inner_size as int;
    assert(w - inn >= 0);
    assert(0 <= (w - inn) / 2 <= w - inn) by {
        lemma_fundamental_div_mod(w - inn, 2);
    }
}

/// Everything `compute_tiling` and its callers need of the window
/// rectangles: each lies inside the inset screen area, so every
/// coordinate fits the display server's wire types.
proof fn lemma_tile_bounds(screen: Rect, g: GapsConfig, n: int)
    requires
        tiling_fits(screen, g, n),
        n >= 1,
    ensures
        forall|i: int|
            0 <= i < n ==> i16::MIN <= #[trigger] tile_x(screen, g, n, i) && tile_x(screen, g, n, i)
                + tile_width(screen, g, n, i) <= i16::MAX,
        forall|i: int|
            0 <= i < n ==> i16::MIN <= #[trigger] tile_y(screen, g, n, i) && tile_y(screen, g, n, i)
                + tile_height(screen, g, n, i) <= i16::MAX,
        forall|i: int|
            0 <= i < n ==> 0 <= #[trigger] tile_width(screen, g, n, i) <= u16::MAX && 0
                <= tile_height(screen, g, n, i) <= u16::MAX,
{
    if n >= 2 {
        lemma_stack_division(screen, g, n);
        lemma_stack_metrics(screen, g, n);
        lemma_column_metrics(screen, g, n);
        assert(tile_height(screen, g, n, n - 1) >= 0);
        assert forall|i: int| 0 <= i < n implies 0 <= #[trigger] tile_height(screen, g, n, i) by {}
    }
}

/// Computes the tiling pass for the given windows: window 0 is the
/// master, the rest stack vertically to its right, remainder pixels
/// going to the earliest stack windows. No windows, no writes.
pub fn compute_tiling(windows: &Vec<LayoutHandle>, screen: Rect, g: GapsConfig) -> (out: Vec<
    GeometryWrite,
>)
    requires
        tiling_fits(screen, g, windows@.len() as int),
    ensures
        out@ == spec_tiling_writes(windows@, screen, g),
{
    let ghost n_spec = windows@.len() as int;
    let n = windows.len();
    let mut out: Vec<GeometryWrite> = Vec::new();
    if n == 0 {
        proof {
            assert(out@ =~= spec_tiling_writes(windows@, screen, g));
        }
        return out;
    }
    proof {
        lemma_tile_bounds(screen, g, n_spec);
    }
    let outer: i32 = g.outer_size as i32;
    let inner: i32 = g.inner_size as i32;
    let ix: i32 = screen.x as i32 + outer;
    let iy: i32 = screen.y as i32 + outer;
    let iw: i32 = screen.width as i32 - 2 * outer;
    let ih: i32 = screen.height as i32 - 2 * outer;
    if n == 1 {
        out.push(
            GeometryWrite {
                window: windows[0].window,
                geometry: Rect {
                    x: ix as i16,
                    y: iy as i16,
                    width: iw as u16,
                    height: ih as u16,
                },
            },
        );
        proof {
            assert(out@ =~= spec_tiling_writes(windows@, screen, g));
        }
        return out;
    }
    proof {
        lemma_stack_division(screen, g, n_spec);
        lemma_stack_metrics(screen, g, n_spec);
        lemma_column_metrics(screen, g, n_spec);
    }
    let mw: i32 = (iw - inner) / 2;
    let sx: i32 = ix + mw + inner;
    let sw: i32 = iw - mw - inner;
    let k: usize = n - 1;
    let avail: usize = (ih as usize) - (k - 1) * (g.inner_size as usize);
    let base: usize = avail / k;
    let rem: usize = avail % k;
    out.push(
        GeometryWrite {
            window: windows[0].window,
            geometry: Rect { x: ix as i16, y: iy as i16, width: mw as u16, height: ih as u16 },
        },
    );
    let mut cur_y: i32 = iy;
    let mut j: usize = 0;
    while j < k
        invariant
            tiling_fits(screen, g, n_spec),
            n_spec == windows@.len(),
            n_spec == k + 1,
            2 <= n_spec,
            0 <= j <= k,
            iy == inset_top(screen, g),
            sx == stack_left(screen, g, n_spec),
            sw == stack_width(screen, g, n_spec),
            base == stack_base(screen, g, n_spec),
            rem == stack_rem(screen, g, n_spec),
            inner == g.inner_size as int,
            cur_y as int == tile_y(screen, g, n_spec, j + 1),
            out@.len() == j + 1,
            forall|t: int|
                0 <= t <= j ==> out@[t] == tiling_write(screen, g, n_spec, t, windows@[t].window),
        decreases k - j,
    {
        proof {
            lemma_stack_division(screen, g, n_spec);
            lemma_stack_metrics(screen, g, n_spec);
            lemma_column_metrics(screen, g, n_spec);
            lemma_tile_bounds(screen, g, n_spec);
        }
        let h: usize = if j < rem {
            base + 1
        } else {
            base
        };
        assert(h as int == tile_height(screen, g, n_spec, j + 1));
        out.push(
            GeometryWrite {
                window: windows[j + 1].window,
                geometry: Rect {
                    x: sx as i16,
                    y: cur_y as i16,
                    width: sw as u16,
                    height: h as u16,
                },
            },
        );
        cur_y = cur_y + h as i32 + inner;
        j = j + 1;
        proof {
            if j < k {
                assert(cur_y as int == tile_y(screen, g, n_spec, j + 1));
            } else {
                assert(cur_y as int == tile_y(screen, g, n_spec, (j - 1) + 1) + tile_height(
                    screen,
                    g,
                    n_spec,
                    j as int,
                ) + g.inner_size as int);
                assert(cur_y as int == tile_y(screen, g, n_spec, j + 1)) by {
                    assert(j * (stack_base(screen, g, n_spec) + g.inner_size as int) == (j - 1) * (
                    stack_base(screen, g, n_spec) + g.inner_size as int) + (stack_base(
                        screen,
                        g,
                        n_spec,
                    ) + g.inner_size as int)) by (nonlinear_arith);
                }
            }
        }
    }
    proof {
        assert(out@ =~= spec_tiling_writes(windows@, screen, g));
    }
    out
}

/// Law: a tiling pass of two or more windows is exact. The master
/// column starts at the inset left edge; the stack column ends at the
/// inset right edge, exactly one inner gap to the master's right. The
/// stack runs from the inset top to the inset bottom, each window
/// exactly one inner gap below its predecessor. Any two regions are
/// separated by at least the inner gap along one axis, so none overlap
/// and, with the gaps, they reconstruct the inset rectangle exactly.
pub proof fn lemma_tiling_exact(screen: Rect, g: GapsConfig, n: int)
    requires
        tiling_fits(screen, g, n),
        n >= 2,
    ensures
        tile_x(screen, g, n, 0) == inset_left(screen, g),
        tile_y(screen, g, n, 0) == inset_top(screen, g),
        tile_height(screen, g, n, 0) == inset_height(screen, g),
        tile_x(screen, g, n, 0) + tile_width(screen, g, n, 0) + g.inner_size as int == tile_x(
            screen,
            g,
            n,
            1,
        ),
        forall|i: int|
            1 <= i < n ==> #[trigger] tile_x(screen, g, n, i) + tile_width(screen, g, n, i)
                == inset_left(screen, g) + inset_width(screen, g),
        tile_y(screen, g, n, 1) == inset_top(screen, g),
        forall|i: int|
            1 <= i < n - 1 ==> #[trigger] tile_y(screen, g, n, i + 1) == tile_y(screen, g, n, i)
                + tile_height(screen, g, n, i) + g.inner_size as int,
        tile_y(screen, g, n, n - 1) + tile_height(screen, g, n, n - 1) == inset_top(screen, g)
            + inset_height(screen, g),
        forall|i: int, j: int|
            #![trigger tile_y(screen, g, n, i), tile_y(screen, g, n, j)]
            0 <= i < j < n ==> tile_x(screen, g, n, i) + tile_width(screen, g, n, i)
                + g.inner_size as int <= tile_x(screen, g, n, j) || tile_y(screen, g, n, i)
                + tile_height(screen, g, n, i) + g.inner_size as int <= tile_y(screen, g, n, j),
{
    let b = stack_base(screen, g, n);
    let rem = stack_rem(screen, g, n);
    let inn = g.inner_size as int;
    lemma_stack_division(screen, g, n);
    lemma_stack_metrics(screen, g, n);
    lemma_column_metrics(screen, g, n);
    assert forall|i: int, j: int|
        #![trigger tile_y(screen, g, n, i), tile_y(screen, g, n, j)]
        0 <= i < j < n implies tile_x(screen, g, n, i) + tile_width(screen, g, n, i) + inn
        <= tile_x(screen, g, n, j) || tile_y(screen, g, n, i) + tile_height(screen, g, n, i) + inn
        <= tile_y(screen, g, n, j) by {
        if i >= 1 {
            lemma_mul_inequality(1, j - i, b + inn);
            assert((j - i) * (b + inn) + (i - 1) * (b + inn) == (j - 1) * (b + inn))
                by (nonlinear_arith);
        }
    }
}

/// Law: the rectangles a tiling pass writes are pairwise
/// non-overlapping, and each coordinate round-trips the wire types, so
/// the written geometry is exactly the computed one.
pub proof fn lemma_tiling_writes_disjoint(ws: Seq<LayoutHandle>, screen: Rect, g: GapsConfig)
    requires
        tiling_fits(screen, g, ws.len() as int),
        ws.len() >= 1,
    ensures
        forall|i: int|
            0 <= i < ws.len() ==> (#[trigger] spec_tiling_writes(ws, screen, g)[i]).geometry.x
                as int == tile_x(screen, g, ws.len() as int, i) && spec_tiling_writes(
                ws,
                screen,
                g,
            )[i].geometry.y as int == tile_y(screen, g, ws.len() as int, i) && spec_tiling_writes(
                ws,
                screen,
                g,
            )[i].geometry.width as int == tile_width(screen, g, ws.len() as int, i)
                && spec_tiling_writes(ws, screen, g)[i].geometry.height as int == tile_height(
                screen,
                g,
                ws.len() as int,
                i,
            ),
        forall|i: int, j: int|
            0 <= i < j < ws.len() ==> !(#[trigger] spec_tiling_writes(ws, screen, g)[i]).geometry
                .overlaps(#[trigger] spec_tiling_writes(ws, screen, g)[j].geometry),
{
    let n = ws.len() as int;
    lemma_tile_bounds(screen, g, n);
    if n >= 2 {
        lemma_tiling_exact(screen, g, n);
    }
}

/// The machine limits under which `n` windows fit a monocle pass.
pub open spec fn monocle_fits(screen: Rect, g: GapsConfig, n: int) -> bool {
    &&& screen.x + screen.width as int <= i16::MAX as int
    &&& screen.y + screen.height as int <= i16::MAX as int
    &&& n >= 1 ==> 2 * g.outer_size as int <= screen.width as int && 2 * g.outer_size as int
        <= screen.height as int
}

/// The writes of a monocle pass: every window gets the inset rectangle.
pub open spec fn spec_monocle_writes(ws: Seq<LayoutHandle>, screen: Rect, g: GapsConfig) -> Seq<
    GeometryWrite,
> {
    Seq::new(
        ws.len(),
        |i: int|
            GeometryWrite {
                window: ws[i].window,
                geometry: Rect {
                    x: inset_left(screen, g) as i16,
                    y: inset_top(screen, g) as i16,
                    width: inset_width(screen, g) as u16,
                    height: inset_height(screen, g) as u16,
                },
            },
    )
}

/// Computes a monocle pass: each window gets the full inset screen
/// rectangle, written in registration order, so the window mapped last
/// stacks on top.
pub fn compute_monocle(windows: &Vec<LayoutHandle>, screen: Rect, g: GapsConfig) -> (out: Vec<
    GeometryWrite,
>)
    requires
        monocle_fits(screen, g, windows@.len() as int),
    ensures
        out@ == spec_monocle_writes(windows@, screen, g),
{
    let n = windows.len();
    let mut out: Vec<GeometryWrite> = Vec::new();
    if n == 0 {
        proof {
            assert(out@ =~= spec_monocle_writes(windows@, screen, g));
        }
        return out;
    }
    let outer: i32 = g.outer_size as i32;
    let rect = Rect {
        x: (screen.x as i32 + outer) as i16,
        y: (screen.y as i32 + outer) as i16,
        width: (screen.width as i32 - 2 * outer) as u16,
        height: (screen.height as i32 - 2 * outer) as u16,
    };
    let mut i: usize = 0;
    while i < n
        invariant
            monocle_fits(screen, g, windows@.len() as int),
            n == windows@.len(),
            1 <= n,
            0 <= i <= n,
            rect.x as int == inset_left(screen, g),
            rect.y as int == inset_top(screen, g),
            rect.width as int == inset_width(screen, g),
            rect.height as int == inset_height(screen, g),
            out@.len() == i,
            forall|t: int|
                0 <= t < i ==> out@[t] == (GeometryWrite { window: windows@[t].window, geometry: rect }),
        decreases n - i,
    {
        out.push(GeometryWrite { window: windows[i].window, geometry: rect });
        i = i + 1;
    }
    proof {
        assert(out@ =~= spec_monocle_writes(windows@, screen, g));
    }
    out
}

/// The write that centers a never-placed window on the screen, keeping
/// its own extent.
pub open spec fn centered_write(w: LayoutHandle, screen: Rect) -> GeometryWrite {
    GeometryWrite {
        window: w.window,
        geometry: Rect {
            x: (screen.x + (screen.width as int - w.geometry.width as int) / 2) as i16,
            y: (screen.y + (screen.height as int - w.geometry.height as int) / 2) as i16,
            width: w.geometry.width,
            height: w.geometry.height,
        },
    }
}

/// The machine limits of a floating pass: the screen edges fit the
/// wire coordinates, and no window to be centered is larger than the
/// screen.
pub open spec fn floating_fits(ws: Seq<LayoutHandle>, screen: Rect) -> bool {
    &&& screen.x + screen.width as int <= i16::MAX as int
    &&& screen.y + screen.height as int <= i16::MAX as int
    &&& forall|i: int|
        0 <= i < ws.len() && !(#[trigger] ws[i]).placed ==> ws[i].geometry.width as int
            <= screen.width as int && ws[i].geometry.height as int <= screen.height as int
}

/// The writes of a floating pass: placed windows keep their requested
/// geometry untouched; a window never placed is centered, and only when
/// centering is configured.
pub open spec fn spec_floating_writes(ws: Seq<LayoutHandle>, screen: Rect, center: bool) -> Seq<
    GeometryWrite,
>
    decreases ws.len(),
{
    if ws.len() == 0 {
        Seq::empty()
    } else {
        let rest = spec_floating_writes(ws.drop_last(), screen, center);
        if center && !ws.last().placed {
            rest.push(centered_write(ws.last(), screen))
        } else {
            rest
        }
    }
}

/// Computes a floating pass: writes centering geometry for exactly the
/// windows that were never placed, when the configuration asks for it;
/// every other window is left as it requested.
pub fn compute_floating(windows: &Vec<LayoutHandle>, screen: Rect, center: bool) -> (out: Vec<
    GeometryWrite,
>)
    requires
        floating_fits(windows@, screen),
    ensures
        out@ == spec_floating_writes(windows@, screen, center),
{
    let n = windows.len();
    let mut out: Vec<GeometryWrite> = Vec::new();
    let mut i: usize = 0;
    while i < n
        invariant
            floating_fits(windows@, screen),
            n == windows@.len(),
            0 <= i <= n,
            out@ == spec_floating_writes(windows@.subrange(0, i as int), screen, center),
        decreases n - i,
    {
        let w = windows[i];
        if center && !w.placed {
            let cx: i32 = screen.x as i32 + (screen.width as i32 - w.geometry.width as i32) / 2;
            let cy: i32 = screen.y as i32 + (screen.height as i32 - w.geometry.height as i32) / 2;
            out.push(
                GeometryWrite {
                    window: w.window,
                    geometry: Rect {
                        x: cx as i16,
                        y: cy as i16,
                        width: w.geometry.width,
                        height: w.geometry.height,
                    },
                },
            );
        }
        i = i + 1;
        proof {
            assert(windows@.subrange(0, i as int).drop_last() =~= windows@.subrange(
                0,
                i as int - 1,
            ));
        }
    }
    proof {
        assert(windows@.subrange(0, n as int) =~= windows@);
    }
    out
}

/// The machine limits under which a pass of the given strategy fits.
pub open spec fn layout_fits(
    strategy: LayoutStrategy,
    ws: Seq<LayoutHandle>,
    screen: Rect,
    g: GapsConfig,
) -> bool {
    match strategy {
        LayoutStrategy::Tiling => tiling_fits(screen, g, ws.len() as int),
        LayoutStrategy::Monocle => monocle_fits(screen, g, ws.len() as int),
        LayoutStrategy::Floating => floating_fits(ws, screen),
    }
}

/// The writes of one layout pass under the given strategy.
pub open spec fn spec_layout_writes(
    strategy: LayoutStrategy,
    ws: Seq<LayoutHandle>,
    screen: Rect,
    g: GapsConfig,
    center: bool,
) -> Seq<GeometryWrite> {
    match strategy {
        LayoutStrategy::Tiling => spec_tiling_writes(ws, screen, g),
        LayoutStrategy::Monocle => spec_monocle_writes(ws, screen, g),
        LayoutStrategy::Floating => spec_floating_writes(ws, screen, center),
    }
}

/// Whether `n` windows tile onto `screen` under these gaps.
pub fn check_tiling_fits(screen: Rect, g: GapsConfig, n: usize) -> (r: bool)
    ensures
        r == tiling_fits(screen, g, n as int),
{
    if screen.x as i32 + screen.width as i32 > i16::MAX as i32 || screen.y as i32
        + screen.height as i32 > i16::MAX as i32 {
        return false;
    }
    if n >= 1 && (2 * (g.outer_size as i32) > screen.width as i32 || 2 * (g.outer_size as i32)
        > screen.height as i32) {
        return false;
    }
    if n >= 2 {
        if 2 * (g.outer_size as i32) + g.inner_size as i32 > screen.width as i32 {
            return false;
        }
        let inset_h: u128 = (screen.height as i32 - 2 * (g.outer_size as i32)) as u128;
        proof {
            lemma_mul_upper_bound(
                n as int - 2,
                usize::MAX as int,
                g.inner_size as int,
                u16::MAX as int,
            );
        }
        if (n as u128 - 2) * (g.inner_size as u128) > inset_h {
            return false;
        }
    }
    true
}

/// A compositor turns the windows of a tag into geometry writes, at
/// most one per window, each targeting the window at its own position.
pub trait Compositor {
    fn locate_windows(&self, windows: &Vec<LayoutHandle>, screen: Rect) -> (out: Vec<
        GeometryWrite,
    >)
        ensures
            out@.len() <= windows@.len(),
            forall|i: int|
                0 <= i < out@.len() ==> (#[trigger] out@[i]).window == windows@[i].window,
    ;
}

/// The master-stack compositor: lays windows out under the tiling
/// strategy with its configured gaps.
#[derive(Clone, Copy, PartialEq, Eq, Structural, Debug)]
pub struct TilingCompositor {
    pub tiling_config: TilingConfig,
}

impl TilingCompositor {
    pub fn new(tiling_config: TilingConfig) -> (r: TilingCompositor)
        ensures
            r == (TilingCompositor { tiling_config }),
    {
        TilingCompositor { tiling_config }
    }
}

impl Compositor for TilingCompositor {
    /// One tiling pass; when the windows do not fit the machine limits
    /// it writes nothing, and the pass is retried on the next trigger.
    fn locate_windows(&self, windows: &Vec<LayoutHandle>, screen: Rect) -> (out: Vec<
        GeometryWrite,
    >)
        ensures
            out@ == if tiling_fits(screen, self.tiling_config.spec_effective_gaps(), windows@.len() as int) {
                spec_tiling_writes(windows@, screen, self.tiling_config.spec_effective_gaps())
            } else {
                Seq::<GeometryWrite>::empty()
            },
    {
        let g = self.tiling_config.effective_gaps();
        let out: Vec<GeometryWrite> = if check_tiling_fits(screen, g, windows.len()) {
            compute_tiling(windows, screen, g)
        } else {
            Vec::new()
        };
        out
    }
}

/// Runs one layout pass: dispatches on the strategy and returns the
/// geometry writes for the given windows, in their given order.
pub fn compute(
    strategy: LayoutStrategy,
    windows: &Vec<LayoutHandle>,
    screen: Rect,
    g: GapsConfig,
    center: bool,
) -> (out: Vec<GeometryWrite>)
    requires
        layout_fits(strategy, windows@, screen, g),
    ensures
        out@ == spec_layout_writes(strategy, windows@, screen, g, center),
{
    match strategy {
        LayoutStrategy::Tiling => compute_tiling(windows, screen, g),
        LayoutStrategy::Monocle => compute_monocle(windows, screen, g),
        LayoutStrategy::Floating => compute_floating(windows, screen, center),
    }
}

} // verus!

