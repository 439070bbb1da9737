//! Corner obstacles: one static circular collider at each arena corner,
//! created once at startup and never mutated afterwards.

use vstd::prelude::*;

use crate::engine::BodyKind;
use crate::engine::Material;
use crate::util::Rectangle;
use crate::util::Vec2;

verus! {

/// Radius of a corner obstacle, in milliunits.
pub const CORNER_RADIUS: i64 = 70_000;

/// A static circular obstacle as handed to the external engine.
#[derive(Clone, Copy, PartialEq, Eq, Structural, Debug)]
pub struct Corner {
    pub pos: Vec2,
    pub radius: i64,
    pub body: BodyKind,
    pub material: Material,
}

/// The corner at one anchor point.
pub open spec fn spec_corner_at(pos: Vec2) -> Corner {
    Corner { pos, radius: CORNER_RADIUS, body: BodyKind::Fixed, material: Material::spec_elastic() }
}

/// The four corners of an arena: top-left, top-right, bottom-left,
/// bottom-right.
pub open spec fn spec_corners(arena: Rectangle) -> Seq<Corner> {
    seq![
        spec_corner_at(Vec2 { x: arena.x, y: (arena.y + arena.h) as i64 }),
        spec_corner_at(Vec2 { x: (arena.x + arena.w) as i64, y: (arena.y + arena.h) as i64 }),
        spec_corner_at(Vec2 { x: arena.x, y: arena.y }),
        spec_corner_at(Vec2 { x: (arena.x + arena.w) as i64, y: arena.y }),
    ]
}

/// Build the four corner obstacles of the arena. Runs once at startup; the
/// result is never mutated afterwards.
pub fn corner_spawn_system(arena: &Rectangle) -> (r: Vec<Corner>)
    requires
        arena.wf(),
    ensures
        r@ == spec_corners(*arena),
{
    let mut out: Vec<Corner> = Vec::new();
    let radius: i64 = CORNER_RADIUS;
    out.push(Corner { pos: arena.top_left(), radius, body: BodyKind::Fixed, material: Material::elastic() });
    out.push(Corner { pos: arena.top_right(), radius, body: BodyKind::Fixed, material: Material::elastic() });
    out.push(Corner { pos: arena.bottom_left(), radius, body: BodyKind::Fixed, material: Material::elastic() });
    out.push(Corner { pos: arena.bottom_right(), radius, body: BodyKind::Fixed, material: Material::elastic() });
    proof {
        assert(out@ =~= spec_corners(*arena));
    }
    out
}

} // verus!
