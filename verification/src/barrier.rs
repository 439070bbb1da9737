//! Barrier obstacles: one static oriented-rectangle collider along each of
//! the left, top and right arena edges (the bottom stays open for the
//! player), created once at startup and never mutated afterwards.

use vstd::prelude::*;

use crate::engine::BodyKind;
use crate::engine::Material;
use crate::util::Rectangle;
use crate::util::Vec2;

verus! {

/// Thickness of a barrier, in milliunits.
pub const BARRIER_THICKNESS: i64 = 10_000;

/// A static oriented-rectangle obstacle as handed to the external engine:
/// `extents` is the full side length along each local axis before the
/// rotation (in whole degrees, counterclockwise) is applied.
#[derive(Clone, Copy, PartialEq, Eq, Structural, Debug)]
pub struct Barrier {
    pub pos: Vec2,
    pub extents: Vec2,
    pub rotation_deg: i64,
    pub body: BodyKind,
    pub material: Material,
}

/// The barrier centred at one edge midpoint.
pub open spec fn spec_barrier_at(pos: Vec2, width: int, rotation_deg: int) -> Barrier {
    Barrier {
        pos,
        extents: Vec2 { x: width as i64, y: BARRIER_THICKNESS },
        rotation_deg: rotation_deg as i64,
        body: BodyKind::Fixed,
        material: Material::spec_elastic(),
    }
}

/// The three barriers of an arena: left, top and right edge, each rotated
/// so its long axis runs along the edge.
pub open spec fn spec_barriers(arena: Rectangle) -> Seq<Barrier> {
    seq![
        spec_barrier_at(
            Vec2 { x: arena.x, y: ((2 * arena.y + arena.h) / 2) as i64 },
            arena.w as int,
            -90,
        ),
        spec_barrier_at(
            Vec2 { x: ((2 * arena.x + arena.w) / 2) as i64, y: (arena.y + arena.h) as i64 },
            arena.w as int,
            180,
        ),
        spec_barrier_at(
            Vec2 { x: (arena.x + arena.w) as i64, y: ((2 * arena.y + arena.h) / 2) as i64 },
            arena.w as int,
            90,
        ),
    ]
}

/// Build the three barrier obstacles of the arena. Runs once at startup;
/// the result is never mutated afterwards.
pub fn barrier_spawn_system(arena: &Rectangle) -> (r: Vec<Barrier>)
    requires
        arena.wf(),
    ensures
        r@ == spec_barriers(*arena),
{
    let mut out: Vec<Barrier> = Vec::new();
    let extents = Vec2 { x: arena.w, y: BARRIER_THICKNESS };
    out.push(Barrier {
        pos: arena.left_middle(),
        extents,
        rotation_deg: -90,
        body: BodyKind::Fixed,
        material: Material::elastic(),
    });
    out.push(Barrier {
        pos: arena.top_middle(),
        extents,
        rotation_deg: 180,
        body: BodyKind::Fixed,
        material: Material::elastic(),
    });
    out.push(Barrier {
        pos: arena.right_middle(),
        extents,
        rotation_deg: 90,
        body: BodyKind::Fixed,
        material: Material::elastic(),
    });
    proof {
        assert(out@ =~= spec_barriers(*arena));
    }
    out
}

} // verus!
