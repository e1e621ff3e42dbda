//! The geometry hit-tester: does the pointer fall inside a surface's active
//! hit region, where the region's vertical extent is widened or narrowed by a
//! hysteresis buffer depending on the surface's current visibility.

use vstd::prelude::*;

verus! {

/// Last-known pointer position, in integer screen coordinates.
/// A value type, compared by exact equality to detect change.
#[derive(Clone, Copy, Debug, PartialEq, Eq, Structural)]
pub struct CursorPos {
    pub x: i32,
    pub y: i32,
}

/// A monitored overlay surface: its screen rectangle as captured at
/// resolution, its identifying tag, and the engine's belief about its
/// shown state.
#[derive(Debug)]
pub struct Layer {
    pub x: i32,
    pub y: i32,
    pub w: u32,
    pub h: u32,
    pub namespace: String,
    pub visible: bool,
}

/// The hysteresis buffer: two thirds of the surface's height.
pub open spec fn spec_buffer(h: int) -> int {
    h * 2 / 3
}

/// Whether the surface is anchored away from the top screen edge.
/// A surface whose vertical offset exceeds its own height is treated as
/// anchored away from the top, so the hysteresis adjustment moves its lower
/// bound; otherwise the adjustment moves its upper bound.
pub open spec fn spec_anchored_away_from_top(l: Layer) -> bool {
    l.y as int > l.h as int
}

/// Lower vertical bound of the active hit region for visibility `visible`.
pub open spec fn spec_y_min(l: Layer, visible: bool) -> int {
    let buffer = spec_buffer(l.h as int);
    if spec_anchored_away_from_top(l) {
        if visible {
            l.y as int - buffer
        } else {
            l.y as int + buffer
        }
    } else {
        l.y as int
    }
}

/// Upper vertical bound of the active hit region for visibility `visible`.
pub open spec fn spec_y_max(l: Layer, visible: bool) -> int {
    let buffer = spec_buffer(l.h as int);
    if spec_anchored_away_from_top(l) {
        l.y as int + l.h as int
    } else {
        if visible {
            l.y as int + l.h as int + buffer
        } else {
            l.y as int + l.h as int - buffer
        }
    }
}

/// The hit test with an explicit visibility argument: the pointer lies within
/// the hysteresis-adjusted vertical bounds and the raw horizontal bounds,
/// inclusive of all edges.
pub open spec fn spec_contains_with(l: Layer, visible: bool, p: CursorPos) -> bool {
    p.y as int <= spec_y_max(l, visible) && p.y as int >= spec_y_min(l, visible)
        && p.x as int <= l.x as int + l.w as int && p.x as int >= l.x as int
}

/// The hit test at the surface's current visibility belief.
pub open spec fn spec_contains(l: Layer, p: CursorPos) -> bool {
    spec_contains_with(l, l.visible, p)
}

impl Layer {
    /// Whether the pointer falls inside this surface's active hit region,
    /// grown by the hysteresis buffer while visible and shrunk by it while
    /// hidden.
    pub fn does_contain_cursor(&self, cursorpos: &CursorPos) -> (r: bool)
        ensures
            r == spec_contains(*self, *cursorpos),
    {
        let y_buffer: i64 = ((self.h as u64) * 2 / 3) as i64;
        let mut bar_y_max: i64 = self.y as i64 + self.h as i64;
        let mut bar_y_min: i64 = self.y as i64;

        if self.y as i64 > self.h as i64 {
            if self.visible {
                bar_y_min = bar_y_min - y_buffer;
            } else {
                bar_y_min = bar_y_min + y_buffer;
            }
        } else if self.visible {
            bar_y_max = bar_y_max + y_buffer;
        } else {
            bar_y_max = bar_y_max - y_buffer;
        }

        let bar_x_max: i64 = self.x as i64 + self.w as i64;
        let bar_x_min: i64 = self.x as i64;

        cursorpos.y as i64 <= bar_y_max && cursorpos.y as i64 >= bar_y_min
            && cursorpos.x as i64 <= bar_x_max && cursorpos.x as i64 >= bar_x_min
    }
}

/// The hit region at visibility `false` lies within the hit region at
/// visibility `true`: hiding only ever shrinks the region, so a pointer
/// inside the shrunk region is inside the grown one as well.
pub proof fn lemma_hidden_region_within_visible(l: Layer, p: CursorPos)
    requires
        spec_contains_with(l, false, p),
    ensures
        spec_contains_with(l, true, p),
{
    assert(spec_buffer(l.h as int) >= 0) by {
        assert(l.h as int * 2 >= 0);
    }
}

/// A pointer strictly inside the unbuffered rectangle is inside the active
/// hit region.  While the surface is hidden the region is shrunk by the
/// buffer along its anchored edge, so there the pointer must additionally
/// clear the buffer; while it is visible the region only grows, and strict
/// interiority alone suffices.
pub proof fn lemma_strictly_inside_contains(l: Layer, visible: bool, p: CursorPos)
    requires
        (l.x as int) < (p.x as int) < (l.x as int + l.w as int),
        (l.y as int) < (p.y as int) < (l.y as int + l.h as int),
        !visible && spec_anchored_away_from_top(l) ==> p.y as int >= l.y as int
            + spec_buffer(l.h as int),
        !visible && !spec_anchored_away_from_top(l) ==> p.y as int <= l.y as int + l.h as int
            - spec_buffer(l.h as int),
    ensures
        spec_contains_with(l, visible, p),
{
    assert(spec_buffer(l.h as int) >= 0) by {
        assert(l.h as int * 2 >= 0);
    }
}

/// Hysteresis asymmetry: for a surface anchored away from the top, a pointer
/// within the horizontal bounds at vertical distance `d` above the unbuffered
/// lower bound, with `0 < d < buffer`, is inside the hit region while the
/// surface is visible and outside it while the surface is hidden.
pub proof fn lemma_hysteresis_asymmetry(l: Layer, p: CursorPos, d: int)
    requires
        spec_anchored_away_from_top(l),
        l.x as int <= p.x as int <= l.x as int + l.w as int,
        p.y as int == l.y as int - d,
        0 < d < spec_buffer(l.h as int),
    ensures
        spec_contains_with(l, true, p),
        !spec_contains_with(l, false, p),
{
}

} // verus!
