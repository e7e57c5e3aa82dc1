//! The world: the body collection, global parameters, and the
//! fixed-timestep stepping loop.

use vstd::prelude::*;
use rayon::iter::IntoParallelRefMutIterator;
use rayon::iter::ParallelIterator;
use crate::body::{Body, placeholder_bbox};
use crate::scalar::{
    SCALE, fmul, lemma_smul_one, lemma_smul_zero, sadd, sat_add, sat_add_spec, smul, sneg,
};
use crate::v2::{V2, v2_add, v2_scale};

verus! {

/// Container for the simulation: all bodies, the global gravity and
/// damping parameters, and the carry-over buffer that decouples the
/// fixed simulation timestep from caller-driven wall-clock time.
pub struct World {
    /// The bodies, in insertion order. Exposed so that external callers
    /// (a future collision module) can append bodies or apply impulses
    /// and forces between steps.
    pub bodies: Vec<Body>,
    /// Gravity. The default is `(0, -9.81)` in fixed-point units.
    pub gravity: V2,
    /// Declared for a future deactivation policy; never read here.
    pub allow_deactivation: bool,
    /// Per-step multiplier on every angular velocity, in `[0, SCALE]`.
    pub angular_damping_factor: i64,
    /// Per-step multiplier on every linear velocity, in `[0, SCALE]`.
    pub linear_damping_factor: i64,
    /// Accumulated not-yet-simulated time.
    pub accumulated_time: i64,
}

/// Rejection cases of [`World::set_damping_factors`]: each factor must
/// lie in `[0, SCALE]`, and a value outside that range is a caller
/// error, not a value to clamp.
#[derive(Debug, Clone, Copy, PartialEq, Eq, Structural)]
pub enum DampingError {
    /// The linear damping factor was outside `[0, SCALE]`.
    LinearOutOfRange,
    /// The angular damping factor was outside `[0, SCALE]`.
    AngularOutOfRange,
}

/// A body after the force-integration pass: a non-static, active body
/// gains gravity in its force accumulator (when affected), then
/// velocity from the accumulated force and torque; every body,
/// eligible or not, leaves the pass with both accumulators cleared.
pub open spec fn force_pass_body(b: Body, gravity: V2, timestep: i64) -> Body {
    if !b.is_static && b.is_active {
        let f = if b.affected_by_gravity {
            v2_add(b.force, gravity)
        } else {
            b.force
        };
        Body {
            linear_velocity: v2_add(b.linear_velocity, v2_scale(v2_scale(f, b.inv_mass), timestep)),
            angular_velocity: sadd(b.angular_velocity, smul(smul(b.torque, b.inv_inertia), timestep)),
            force: V2 { x: 0, y: 0 },
            torque: 0,
            ..b
        }
    } else {
        Body { force: V2 { x: 0, y: 0 }, torque: 0, ..b }
    }
}

/// A body after the motion-integration pass: a non-static, active body
/// advances position and orientation from its velocities, has both
/// velocities damped, and gets its derived state refreshed; any other
/// body is left untouched.
pub open spec fn move_pass_body(b: Body, linear_damping: i64, angular_damping: i64, timestep: i64) -> Body {
    if !b.is_static && b.is_active {
        let position = v2_add(b.position, v2_scale(b.linear_velocity, timestep));
        let orientation = sadd(b.orientation, smul(b.angular_velocity, timestep));
        Body {
            position,
            orientation,
            linear_velocity: v2_scale(b.linear_velocity, linear_damping),
            angular_velocity: smul(b.angular_velocity, angular_damping),
            inv_orientation: sneg(orientation),
            bbox: placeholder_bbox(position),
            ..b
        }
    } else {
        b
    }
}

/// The whole body sequence after one step: the force pass, then the
/// motion pass, body by body.
pub open spec fn step_bodies(
    bodies: Seq<Body>,
    gravity: V2,
    linear_damping: i64,
    angular_damping: i64,
    timestep: i64,
) -> Seq<Body> {
    bodies.map_values(
        |b: Body| move_pass_body(force_pass_body(b, gravity, timestep), linear_damping, angular_damping, timestep),
    )
}

/// The body sequence after `k` steps.
pub open spec fn bodies_after_steps(
    bodies: Seq<Body>,
    gravity: V2,
    linear_damping: i64,
    angular_damping: i64,
    timestep: i64,
    k: int,
) -> Seq<Body>
    decreases k,
{
    if k <= 0 {
        bodies
    } else {
        step_bodies(
            bodies_after_steps(bodies, gravity, linear_damping, angular_damping, timestep, k - 1),
            gravity,
            linear_damping,
            angular_damping,
            timestep,
        )
    }
}

/// How many steps the accumulator loop takes: one per whole `timestep`
/// that `accumulated` strictly exceeds, at most `max_steps`.
pub open spec fn num_steps(accumulated: int, timestep: int, max_steps: int) -> int
    decreases accumulated,
{
    if timestep <= 0 || accumulated <= timestep {
        0
    } else if max_steps <= 0 {
        0
    } else {
        1 + num_steps(accumulated - timestep, timestep, max_steps - 1)
    }
}

/// What the accumulator holds after the loop: the undershoot when the
/// loop ran to completion, zero when the step budget cut it short.
pub open spec fn rem_time(accumulated: int, timestep: int, max_steps: int) -> int
    decreases accumulated,
{
    if timestep <= 0 || accumulated <= timestep {
        accumulated
    } else if max_steps <= 0 {
        0
    } else {
        rem_time(accumulated - timestep, timestep, max_steps - 1)
    }
}

/// Runs the force-integration pass over every body, in parallel.
///
/// Relies on rayon's `par_iter_mut().for_each`: the parallel iterator
/// yields each element of the vector exactly once as a mutable
/// reference, and `for_each` runs the closure on each of them; the
/// closure only calls the verified per-body pass.
#[verifier::external_body]
fn par_force_pass(bodies: &mut Vec<Body>, gravity: V2, timestep: i64)
    ensures
        final(bodies)@.len() == old(bodies)@.len(),
        forall|i: int|
            0 <= i < old(bodies)@.len() ==> final(bodies)@[i] == force_pass_body(
                old(bodies)@[i],
                gravity,
                timestep,
            ),
{
    bodies.par_iter_mut().for_each(|b| integrate_forces_body(b, gravity, timestep));
}

/// Runs the motion-integration pass over every body, in parallel.
///
/// Relies on rayon's `par_iter_mut().for_each`, as the force pass does;
/// the closure only calls the verified per-body pass.
#[verifier::external_body]
fn par_move_pass(bodies: &mut Vec<Body>, linear_damping: i64, angular_damping: i64, timestep: i64)
    ensures
        final(bodies)@.len() == old(bodies)@.len(),
        forall|i: int|
            0 <= i < old(bodies)@.len() ==> final(bodies)@[i] == move_pass_body(
                old(bodies)@[i],
                linear_damping,
                angular_damping,
                timestep,
            ),
{
    bodies.par_iter_mut().for_each(|b| integrate_body(b, linear_damping, angular_damping, timestep));
}

/// Force-integration pass over one body; each body's pass reads and
/// writes that body alone, which is what lets the passes run in
/// parallel.
pub fn integrate_forces_body(b: &mut Body, gravity: V2, timestep: i64)
    ensures
        *final(b) == force_pass_body(*old(b), gravity, timestep),
{
    if !b.is_static && b.is_active {
        if b.affected_by_gravity {
            b.force = b.force.add(&gravity);
        }
        b.linear_velocity = b.linear_velocity.add(&b.force.scale(b.inv_mass).scale(timestep));
        b.angular_velocity = sat_add(b.angular_velocity, fmul(fmul(b.torque, b.inv_inertia), timestep));
    }
    b.force = V2::new(0, 0);
    b.torque = 0;
}

/// Motion-integration pass over one body.
pub fn integrate_body(b: &mut Body, linear_damping: i64, angular_damping: i64, timestep: i64)
    ensures
        *final(b) == move_pass_body(*old(b), linear_damping, angular_damping, timestep),
{
    if !b.is_static && b.is_active {
        b.position = b.position.add(&b.linear_velocity.scale(timestep));
        b.orientation = sat_add(b.orientation, fmul(b.angular_velocity, timestep));
        b.linear_velocity = b.linear_velocity.scale(linear_damping);
        b.angular_velocity = fmul(b.angular_velocity, angular_damping);
        b.update();
    }
}

impl World {
    /// An empty world: no bodies, gravity `(0, -9.81)`, damping factors
    /// `0.95`, nothing accumulated.
    pub fn new() -> (r: World)
        ensures
            r.bodies@.len() == 0,
            r.gravity == (V2 { x: 0, y: (-9_810_000) as i64 }),
            r.allow_deactivation == false,
            r.angular_damping_factor == 950_000,
            r.linear_damping_factor == 950_000,
            r.accumulated_time == 0,
    {
        World {
            bodies: Vec::new(),
            gravity: V2::new(0, -9_810_000),
            allow_deactivation: false,
            angular_damping_factor: 950_000,
            linear_damping_factor: 950_000,
            accumulated_time: 0,
        }
    }

    /// Force-integration pass: for every non-static, active body, folds
    /// gravity into the force accumulator and the accumulated force and
    /// torque into the velocities; clears every body's accumulators.
    /// Gravity is copied by value before the parallel pass so the
    /// closure does not capture the world that owns the bodies.
    fn integrate_forces(&mut self, timestep: i64)
        ensures
            final(self).bodies@.len() == old(self).bodies@.len(),
            forall|i: int|
                0 <= i < old(self).bodies@.len() ==> final(self).bodies@[i] == force_pass_body(
                    old(self).bodies@[i],
                    old(self).gravity,
                    timestep,
                ),
            final(self).gravity == old(self).gravity,
            final(self).allow_deactivation == old(self).allow_deactivation,
            final(self).angular_damping_factor == old(self).angular_damping_factor,
            final(self).linear_damping_factor == old(self).linear_damping_factor,
            final(self).accumulated_time == old(self).accumulated_time,
    {
        let gravity = self.gravity;
        par_force_pass(&mut self.bodies, gravity, timestep);
    }

    /// Motion-integration pass: for every non-static, active body,
    /// advances position and orientation from the velocities, damps the
    /// velocities, and refreshes the derived state. The damping factors
    /// are copied by value before the parallel pass, as gravity is.
    fn integrate(&mut self, timestep: i64)
        ensures
            final(self).bodies@.len() == old(self).bodies@.len(),
            forall|i: int|
                0 <= i < old(self).bodies@.len() ==> final(self).bodies@[i] == move_pass_body(
                    old(self).bodies@[i],
                    old(self).linear_damping_factor,
                    old(self).angular_damping_factor,
                    timestep,
                ),
            final(self).gravity == old(self).gravity,
            final(self).allow_deactivation == old(self).allow_deactivation,
            final(self).angular_damping_factor == old(self).angular_damping_factor,
            final(self).linear_damping_factor == old(self).linear_damping_factor,
            final(self).accumulated_time == old(self).accumulated_time,
    {
        let linear_damping = self.linear_damping_factor;
        let angular_damping = self.angular_damping_factor;
        par_move_pass(&mut self.bodies, linear_damping, angular_damping, timestep);
    }

    /// Integrates the whole world a single timestep further in time:
    /// the force pass over every body, then — only once the force pass
    /// has finished for all of them — the motion pass. After any step,
    /// every body's force and torque accumulators are zero, whether or
    /// not the body was integrated.
    pub fn step(&mut self, timestep: i64)
        ensures
            final(self).bodies@ == step_bodies(
                old(self).bodies@,
                old(self).gravity,
                old(self).linear_damping_factor,
                old(self).angular_damping_factor,
                timestep,
            ),
            forall|i: int|
                0 <= i < final(self).bodies@.len() ==> final(self).bodies@[i].force == (V2 {
                    x: 0,
                    y: 0,
                }) && final(self).bodies@[i].torque == 0,
            final(self).gravity == old(self).gravity,
            final(self).allow_deactivation == old(self).allow_deactivation,
            final(self).angular_damping_factor == old(self).angular_damping_factor,
            final(self).linear_damping_factor == old(self).linear_damping_factor,
            final(self).accumulated_time == old(self).accumulated_time,
    {
        self.integrate_forces(timestep);
        self.integrate(timestep);
        proof {
            assert(self.bodies@ =~= step_bodies(
                old(self).bodies@,
                old(self).gravity,
                old(self).linear_damping_factor,
                old(self).angular_damping_factor,
                timestep,
            ));
        }
    }

    /// Integrates the whole world several fixed timesteps further in
    /// time: adds `time` to the accumulator, then steps once per whole
    /// `timestep` the accumulator strictly exceeds. If the step budget
    /// `max_steps` runs out first, the accumulator is reset to zero and
    /// stepping stops early for this call, trading simulated time for
    /// bounded per-call work under long stalls.
    pub fn step_for(&mut self, time: i64, timestep: i64, max_steps: usize)
        requires
            timestep > 0,
        ensures
            final(self).bodies@ == bodies_after_steps(
                old(self).bodies@,
                old(self).gravity,
                old(self).linear_damping_factor,
                old(self).angular_damping_factor,
                timestep,
                num_steps(
                    sat_add_spec(old(self).accumulated_time as int, time as int),
                    timestep as int,
                    max_steps as int,
                ),
            ),
            final(self).accumulated_time as int == rem_time(
                sat_add_spec(old(self).accumulated_time as int, time as int),
                timestep as int,
                max_steps as int,
            ),
            final(self).gravity == old(self).gravity,
            final(self).allow_deactivation == old(self).allow_deactivation,
            final(self).angular_damping_factor == old(self).angular_damping_factor,
            final(self).linear_damping_factor == old(self).linear_damping_factor,
    {
        self.accumulated_time = sat_add(self.accumulated_time, time);
        let ghost acc0: int = self.accumulated_time as int;
        let mut steps_taken: usize = 0;
        while self.accumulated_time > timestep && steps_taken < max_steps
            invariant
                timestep > 0,
                steps_taken <= max_steps,
                self.gravity == old(self).gravity,
                self.allow_deactivation == old(self).allow_deactivation,
                self.angular_damping_factor == old(self).angular_damping_factor,
                self.linear_damping_factor == old(self).linear_damping_factor,
                self.bodies@ == bodies_after_steps(
                    old(self).bodies@,
                    old(self).gravity,
                    old(self).linear_damping_factor,
                    old(self).angular_damping_factor,
                    timestep,
                    steps_taken as int,
                ),
                num_steps(acc0, timestep as int, max_steps as int) == steps_taken
                    + num_steps(
                    self.accumulated_time as int,
                    timestep as int,
                    max_steps as int - steps_taken as int,
                ),
                rem_time(acc0, timestep as int, max_steps as int) == rem_time(
                    self.accumulated_time as int,
                    timestep as int,
                    max_steps as int - steps_taken as int,
                ),
            decreases self.accumulated_time,
        {
            self.step(timestep);
            self.accumulated_time = self.accumulated_time - timestep;
            steps_taken = steps_taken + 1;
        }
        if self.accumulated_time > timestep {
            self.accumulated_time = 0;
        }
    }

    /// Sets the per-step velocity multipliers. Each factor must lie in
    /// `[0, SCALE]`; an out-of-range value is rejected — never clamped —
    /// with the linear factor checked first, and the world unchanged.
    pub fn set_damping_factors(&mut self, linear: i64, angular: i64) -> (r: Result<
        (),
        DampingError,
    >)
        ensures
            r is Ok <==> (0 <= linear <= SCALE && 0 <= angular <= SCALE),
            !(0 <= linear <= SCALE) ==> r == Result::<(), DampingError>::Err(
                DampingError::LinearOutOfRange,
            ),
            (0 <= linear <= SCALE && !(0 <= angular <= SCALE)) ==> r == Result::<
                (),
                DampingError,
            >::Err(DampingError::AngularOutOfRange),
            r is Ok ==> final(self).linear_damping_factor == linear
                && final(self).angular_damping_factor == angular,
            r is Err ==> *final(self) == *old(self),
            final(self).bodies@ == old(self).bodies@,
            final(self).gravity == old(self).gravity,
            final(self).allow_deactivation == old(self).allow_deactivation,
            final(self).accumulated_time == old(self).accumulated_time,
    {
        if linear < 0 || linear > SCALE {
            Err(DampingError::LinearOutOfRange)
        } else if angular < 0 || angular > SCALE {
            Err(DampingError::AngularOutOfRange)
        } else {
            self.linear_damping_factor = linear;
            self.angular_damping_factor = angular;
            Ok(())
        }
    }
}

/// Pure kinematic drift: a non-static, active body with empty
/// accumulators, zero gravity and damping factors of one advances its
/// position by exactly `linear_velocity * timestep` in one step, with
/// both velocities unchanged. Stated away from the ends of the scalar
/// range, where the saturating sum would pin the position instead.
pub proof fn lemma_kinematic_drift(b: Body, gravity: V2, timestep: i64)
    requires
        !b.is_static,
        b.is_active,
        b.force == (V2 { x: 0, y: 0 }),
        b.torque == 0,
        gravity == (V2 { x: 0, y: 0 }),
        i64::MIN <= b.position.x + smul(b.linear_velocity.x, timestep) <= i64::MAX,
        i64::MIN <= b.position.y + smul(b.linear_velocity.y, timestep) <= i64::MAX,
    ensures
        force_pass_body(b, gravity, timestep).linear_velocity == b.linear_velocity,
        force_pass_body(b, gravity, timestep).angular_velocity == b.angular_velocity,
        move_pass_body(force_pass_body(b, gravity, timestep), SCALE, SCALE, timestep).position.x
            == b.position.x + smul(b.linear_velocity.x, timestep),
        move_pass_body(force_pass_body(b, gravity, timestep), SCALE, SCALE, timestep).position.y
            == b.position.y + smul(b.linear_velocity.y, timestep),
        move_pass_body(force_pass_body(b, gravity, timestep), SCALE, SCALE, timestep).linear_velocity
            == b.linear_velocity,
        move_pass_body(force_pass_body(b, gravity, timestep), SCALE, SCALE, timestep).angular_velocity
            == b.angular_velocity,
{
    lemma_smul_zero(b.inv_mass);
    lemma_smul_zero(timestep);
    lemma_smul_zero(b.inv_inertia);
    let b1 = force_pass_body(b, gravity, timestep);
    assert(b1.linear_velocity == b.linear_velocity);
    assert(b1.angular_velocity == b.angular_velocity);
    lemma_smul_one(b.linear_velocity.x);
    lemma_smul_one(b.linear_velocity.y);
    lemma_smul_one(b.angular_velocity);
}

/// The accumulator loop takes `floor(accumulated / timestep)` steps,
/// clamped to `max_steps`; when clamped the accumulator ends at zero,
/// otherwise at `accumulated % timestep`. Stated for accumulated times
/// that are not an exact multiple of the timestep: at an exact
/// multiple the strict `>` in the loop leaves one final whole timestep
/// unsimulated in the accumulator.
pub proof fn lemma_step_count(accumulated: int, timestep: int, max_steps: int)
    requires
        timestep > 0,
        max_steps >= 0,
        accumulated >= 0,
        accumulated % timestep != 0,
    ensures
        num_steps(accumulated, timestep, max_steps) == if accumulated / timestep <= max_steps {
            accumulated / timestep
        } else {
            max_steps
        },
        accumulated / timestep <= max_steps ==> rem_time(accumulated, timestep, max_steps)
            == accumulated % timestep,
        accumulated / timestep > max_steps ==> rem_time(accumulated, timestep, max_steps) == 0,
    decreases accumulated,
{
    if accumulated <= timestep {
        assert(timestep % timestep == 0) by (nonlinear_arith)
            requires
                timestep > 0,
        ;
        assert(accumulated / timestep == 0 && accumulated % timestep == accumulated)
            by (nonlinear_arith)
            requires
                0 <= accumulated,
                accumulated < timestep,
        ;
    } else if max_steps == 0 {
        assert(accumulated / timestep >= 1) by (nonlinear_arith)
            requires
                accumulated > timestep,
                timestep > 0,
        ;
    } else {
        assert((accumulated - timestep) / timestep == accumulated / timestep - 1
            && (accumulated - timestep) % timestep == accumulated % timestep) by (nonlinear_arith)
            requires
                accumulated > timestep,
                timestep > 0,
        ;
        lemma_step_count(accumulated - timestep, timestep, max_steps - 1);
    }
}

} // verus!
