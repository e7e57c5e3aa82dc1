//! A single rigid body's kinematic and dynamic state.

use vstd::prelude::*;
use crate::bounding_box::BoundingBox;
use crate::scalar::{HALF, SCALE, fmul, sadd, sat_add, sat_neg, smul, sneg};
use crate::v2::{V2, cross_spec, v2_add, v2_scale};

verus! {

/// A rigid body: kinematic state, velocities, per-step force and torque
/// accumulators, mass properties with their cached inverses, and derived
/// quantities kept for (future) collision work.
///
/// `inv_mass` and `inv_inertia` are caller-managed caches, not derived
/// from `mass` and `inertia` here; a static body should carry zero for
/// both, or impulses applied just before it is flagged static would
/// still move it. `is_static` marks a permanently immovable body,
/// `is_active` a temporarily sleeping one; both exclude the body from
/// integration, independently.
#[derive(Debug, Clone, Copy, PartialEq, Eq, Structural)]
pub struct Body {
    /// Position of the center of mass.
    pub position: V2,
    /// Orientation in fixed-point radians, not wrap-normalized.
    pub orientation: i64,
    /// Moment of inertia.
    pub inertia: i64,
    /// Linear velocity.
    pub linear_velocity: V2,
    /// Angular velocity.
    pub angular_velocity: i64,
    /// Force accumulator, cleared on every step.
    pub force: V2,
    /// Torque accumulator, cleared on every step.
    pub torque: i64,
    /// Mass.
    pub mass: i64,
    /// Whether the body is permanently excluded from integration.
    pub is_static: bool,
    /// Whether the body takes part in integration (sleeping gate).
    pub is_active: bool,
    /// Whether gravity is added to the force accumulator each step.
    pub affected_by_gravity: bool,
    /// Bounding box, recomputed each step around the position.
    pub bbox: BoundingBox,
    /// Cached inverse mass; zero for infinite-mass bodies.
    pub inv_mass: i64,
    /// Cached inverse inertia; zero for infinite-inertia bodies.
    pub inv_inertia: i64,
    /// Cached negated orientation, for inverse-rotation transforms.
    pub inv_orientation: i64,
}

/// The placeholder half-extent box around a position: real
/// shape-derived extents are a future extension.
pub open spec fn placeholder_bbox(position: V2) -> BoundingBox {
    BoundingBox {
        min: v2_add(V2 { x: (-HALF) as i64, y: (-HALF) as i64 }, position),
        max: v2_add(V2 { x: HALF, y: HALF }, position),
    }
}

impl Body {
    /// Creates a body at the given position with unit mass, zero
    /// velocities and accumulators, gravity enabled, and the
    /// placeholder unit bounding box.
    pub fn new(position: V2) -> (r: Body)
        ensures
            r == (Body {
                position,
                orientation: 0,
                inertia: 0,
                linear_velocity: V2 { x: 0, y: 0 },
                angular_velocity: 0,
                force: V2 { x: 0, y: 0 },
                torque: 0,
                mass: SCALE,
                is_static: false,
                is_active: true,
                affected_by_gravity: true,
                bbox: BoundingBox {
                    min: V2 { x: (-HALF) as i64, y: (-HALF) as i64 },
                    max: V2 { x: HALF, y: HALF },
                },
                inv_mass: SCALE,
                inv_inertia: 0,
                inv_orientation: 0,
            }),
    {
        Body {
            position,
            orientation: 0,
            inertia: 0,
            linear_velocity: V2::new(0, 0),
            angular_velocity: 0,
            force: V2::new(0, 0),
            torque: 0,
            mass: SCALE,
            is_static: false,
            is_active: true,
            affected_by_gravity: true,
            bbox: BoundingBox::new(V2::new(-HALF, -HALF), V2::new(HALF, HALF)),
            inv_mass: SCALE,
            inv_inertia: 0,
            inv_orientation: 0,
        }
    }

    /// Applies an impulse at an optional offset from the center of
    /// mass, changing linear velocity (and, when the offset is given,
    /// angular velocity through the perp-dot product). An instantaneous
    /// velocity-space change: the force and torque accumulators are not
    /// touched. Applying an impulse to a static body is a caller error,
    /// excluded by precondition.
    pub fn apply_impulse(&mut self, impulse: &V2, relative_position: Option<V2>)
        requires
            !old(self).is_static,
        ensures
            final(self).linear_velocity == v2_add(
                old(self).linear_velocity,
                v2_scale(*impulse, old(self).inv_mass),
            ),
            final(self).angular_velocity == (match relative_position {
                Option::Some(rel_pos) => sadd(
                    old(self).angular_velocity,
                    smul(old(self).inv_inertia, cross_spec(rel_pos, *impulse)),
                ),
                Option::None => old(self).angular_velocity,
            }),
            *final(self) == (Body {
                linear_velocity: final(self).linear_velocity,
                angular_velocity: final(self).angular_velocity,
                ..*old(self)
            }),
    {
        self.linear_velocity = self.linear_velocity.add(&impulse.scale(self.inv_mass));
        if let Some(rel_pos) = relative_position {
            self.angular_velocity = sat_add(
                self.angular_velocity,
                fmul(self.inv_inertia, V2::cross(&rel_pos, impulse)),
            );
        }
    }

    /// Accumulates a force (and, when an offset is given, the torque it
    /// exerts through the perp-dot product) for the next integration
    /// step. Static bodies accept forces too: integration skips them,
    /// but the accumulator is still written and cleared each step.
    pub fn add_force(&mut self, force: &V2, relative_position: Option<V2>)
        ensures
            final(self).force == v2_add(old(self).force, *force),
            final(self).torque == (match relative_position {
                Option::Some(rel_pos) => sadd(old(self).torque, cross_spec(rel_pos, *force)),
                Option::None => old(self).torque,
            }),
            *final(self) == (Body {
                force: final(self).force,
                torque: final(self).torque,
                ..*old(self)
            }),
    {
        self.force = self.force.add(force);
        if let Some(rel_pos) = relative_position {
            self.torque = sat_add(self.torque, V2::cross(&rel_pos, force));
        }
    }

    /// Recomputes the derived state: the cached negated orientation and
    /// the placeholder bounding box around the current position.
    pub fn update(&mut self)
        ensures
            *final(self) == (Body {
                inv_orientation: sneg(old(self).orientation),
                bbox: placeholder_bbox(old(self).position),
                ..*old(self)
            }),
    {
        self.inv_orientation = sat_neg(self.orientation);
        self.bbox = BoundingBox::new(
            V2::new(-HALF, -HALF).add(&self.position),
            V2::new(HALF, HALF).add(&self.position),
        );
    }
}

} // verus!
