//! Arena setup: derive the play rectangle from the viewport size minus a
//! fixed margin, centred on the origin. Runs once at startup; the result is
//! read-only for the rest of the session.

use vstd::prelude::*;

use crate::util::arena_ok;
use crate::util::Rectangle;

verus! {

/// Margin between the viewport edge and the arena, in milliunits.
pub const ARENA_MARGIN: i64 = 50_000;

/// Viewport size in milliunits, queried once at startup.
#[derive(Clone, Copy, PartialEq, Eq, Structural, Debug)]
pub struct WinSize {
    pub w: i64,
    pub h: i64,
}

/// The process-wide arena rectangle, created once the viewport size is
/// known and never mutated afterwards.
#[derive(Clone, Copy, PartialEq, Eq, Structural, Debug)]
pub struct ArenaInfo(pub Rectangle);

/// The arena derived from a viewport: margin-inset on every side, centred
/// at the origin (viewport halves rounded down).
pub open spec fn spec_arena_rect(w: int, h: int) -> Rectangle {
    Rectangle {
        x: (ARENA_MARGIN - w / 2) as i64,
        y: (ARENA_MARGIN - h / 2) as i64,
        w: (w - 2 * ARENA_MARGIN) as i64,
        h: (h - 2 * ARENA_MARGIN) as i64,
    }
}

/// Build the arena from the viewport. A viewport not strictly wider and
/// taller than twice the margin would give a degenerate rectangle: that is
/// a fatal configuration error, rejected here and never handed to any
/// per-tick logic.
pub fn setup_arena(win: &WinSize) -> (r: Option<ArenaInfo>)
    requires
        0 <= win.w <= 400_000_000,
        0 <= win.h <= 400_000_000,
    ensures
        r is Some <==> win.w > 2 * ARENA_MARGIN && win.h > 2 * ARENA_MARGIN,
        r is Some ==> {
            &&& r->Some_0.0 == spec_arena_rect(win.w as int, win.h as int)
            &&& arena_ok(r->Some_0.0)
        },
{
    if win.w <= 2 * ARENA_MARGIN || win.h <= 2 * ARENA_MARGIN {
        return None;
    }
    let half_w: i64 = ((win.w as u64) / 2) as i64;
    let half_h: i64 = ((win.h as u64) / 2) as i64;
    proof {
        vstd::arithmetic::div_mod::lemma_fundamental_div_mod(win.w as int, 2);
        vstd::arithmetic::div_mod::lemma_fundamental_div_mod(win.h as int, 2);
    }
    Some(
        ArenaInfo(
            Rectangle {
                x: ARENA_MARGIN - half_w,
                y: ARENA_MARGIN - half_h,
                w: win.w - 2 * ARENA_MARGIN,
                h: win.h - 2 * ARENA_MARGIN,
            },
        ),
    )
}

} // verus!
