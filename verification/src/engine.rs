//! Plain-value descriptions of what the external rigid-body engine is given
//! for each entity: body kind, material, and the per-step outputs it hands
//! back. The engine itself is a collaborator outside this crate.

use vstd::prelude::*;

use crate::util::Vec2;

verus! {

/// How the engine integrates a body.
#[derive(Clone, Copy, PartialEq, Eq, Structural, Debug)]
pub enum BodyKind {
    Dynamic,
    Fixed,
    KinematicPositionBased,
}

/// How the engine combines two touching bodies' coefficients.
#[derive(Clone, Copy, PartialEq, Eq, Structural, Debug)]
pub enum CombineRule {
    Min,
    Max,
}

/// Physical material, coefficients in thousandths.
#[derive(Clone, Copy, PartialEq, Eq, Structural, Debug)]
pub struct Material {
    pub restitution_milli: i64,
    pub restitution_rule: CombineRule,
    pub friction_milli: i64,
    pub friction_rule: CombineRule,
}

impl Material {
    /// Perfectly elastic and frictionless, both taken by minimum: the
    /// material of every ball and obstacle.
    pub open spec fn spec_elastic() -> Material {
        Material {
            restitution_milli: 1000,
            restitution_rule: CombineRule::Min,
            friction_milli: 0,
            friction_rule: CombineRule::Min,
        }
    }

    pub fn elastic() -> (r: Material)
        ensures
            r == Material::spec_elastic(),
    {
        Material {
            restitution_milli: 1000,
            restitution_rule: CombineRule::Min,
            friction_milli: 0,
            friction_rule: CombineRule::Min,
        }
    }
}

/// What the engine reports for one dynamic body after a step.
#[derive(Clone, Copy, PartialEq, Eq, Structural, Debug)]
pub struct BodyUpdate {
    pub pos: Vec2,
    pub vel: Vec2,
}

} // verus!
