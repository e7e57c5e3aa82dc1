use rustics_2d::scalar::SCALE;
use rustics_2d::world::DampingError;
use rustics_2d::{Body, V2, World};

const DT: i64 = SCALE; // one second per step

#[test]
fn new_world_defaults() {
    let w = World::new();
    assert!(w.bodies.is_empty());
    assert_eq!(w.gravity, V2::new(0, -9_810_000));
    assert!(!w.allow_deactivation);
    assert_eq!(w.linear_damping_factor, 950_000);
    assert_eq!(w.angular_damping_factor, 950_000);
    assert_eq!(w.accumulated_time, 0);
}

#[test]
fn gravity_integrates_into_velocity_then_position() {
    // body at (0,0), mass 1, gravity (0, -9.81), dt = 1, damping 1:
    // one step leaves velocity and position both at (0, -9.81)
    let mut w = World::new();
    assert!(w.set_damping_factors(SCALE, SCALE).is_ok());
    w.bodies.push(Body::new(V2::new(0, 0)));
    w.step(DT);
    assert_eq!(w.bodies[0].linear_velocity, V2::new(0, -9_810_000));
    assert_eq!(w.bodies[0].position, V2::new(0, -9_810_000));
}

#[test]
fn static_bodies_do_not_move_but_their_accumulators_clear() {
    let mut w = World::new();
    let mut b = Body::new(V2::new(1_000_000, 2_000_000));
    b.is_static = true;
    b.orientation = 300_000;
    b.linear_velocity = V2::new(5_000_000, -5_000_000);
    b.angular_velocity = 700_000;
    b.force = V2::new(3_000_000, 4_000_000);
    b.torque = 9_000_000;
    w.bodies.push(b);
    w.step(DT);
    let after = &w.bodies[0];
    assert_eq!(after.position, V2::new(1_000_000, 2_000_000));
    assert_eq!(after.orientation, 300_000);
    assert_eq!(after.linear_velocity, V2::new(5_000_000, -5_000_000));
    assert_eq!(after.angular_velocity, 700_000);
    assert_eq!(after.force, V2::new(0, 0));
    assert_eq!(after.torque, 0);
}

#[test]
fn every_step_clears_every_accumulator() {
    let mut w = World::new();
    let mut active = Body::new(V2::new(0, 0));
    active.force = V2::new(1, 2);
    active.torque = 3;
    let mut sleeping = Body::new(V2::new(0, 0));
    sleeping.is_active = false;
    sleeping.force = V2::new(4, 5);
    sleeping.torque = 6;
    let mut frozen = Body::new(V2::new(0, 0));
    frozen.is_static = true;
    frozen.force = V2::new(7, 8);
    frozen.torque = 9;
    w.bodies.push(active);
    w.bodies.push(sleeping);
    w.bodies.push(frozen);
    w.step(DT);
    for b in &w.bodies {
        assert_eq!(b.force, V2::new(0, 0));
        assert_eq!(b.torque, 0);
    }
}

#[test]
fn pure_kinematic_drift() {
    // no gravity, damping 1: position advances by v * dt, velocity kept
    let mut w = World::new();
    w.gravity = V2::new(0, 0);
    assert!(w.set_damping_factors(SCALE, SCALE).is_ok());
    let mut b = Body::new(V2::new(1_000_000, 1_000_000));
    b.linear_velocity = V2::new(1_000_000, -2_000_000);
    w.bodies.push(b);
    w.step(500_000); // dt = 0.5
    assert_eq!(w.bodies[0].position, V2::new(1_500_000, 0));
    assert_eq!(w.bodies[0].linear_velocity, V2::new(1_000_000, -2_000_000));
    w.step(500_000);
    assert_eq!(w.bodies[0].position, V2::new(2_000_000, -1_000_000));
}

#[test]
fn inactive_bodies_sleep_through_integration() {
    let mut w = World::new();
    let mut b = Body::new(V2::new(0, 0));
    b.is_active = false;
    b.linear_velocity = V2::new(1_000_000, 0);
    w.bodies.push(b);
    w.step(DT);
    assert_eq!(w.bodies[0].position, V2::new(0, 0));
    assert_eq!(w.bodies[0].linear_velocity, V2::new(1_000_000, 0));
}

#[test]
fn out_of_range_damping_is_rejected() {
    let mut w = World::new();
    // 1.5 is no damping factor; the linear value is the one at fault
    assert_eq!(w.set_damping_factors(1_500_000, 500_000), Err(DampingError::LinearOutOfRange));
    assert_eq!(w.linear_damping_factor, 950_000);
    assert_eq!(w.angular_damping_factor, 950_000);
    assert_eq!(w.set_damping_factors(500_000, -1), Err(DampingError::AngularOutOfRange));
}

#[test]
fn accepted_damping_multiplies_velocities_exactly() {
    let mut w = World::new();
    w.gravity = V2::new(0, 0);
    assert_eq!(w.set_damping_factors(900_000, 900_000), Ok(()));
    let mut b = Body::new(V2::new(0, 0));
    b.linear_velocity = V2::new(1_000_000, 2_000_000);
    b.angular_velocity = 3_000_000;
    w.bodies.push(b);
    w.step(DT);
    assert_eq!(w.bodies[0].linear_velocity, V2::new(900_000, 1_800_000));
    assert_eq!(w.bodies[0].angular_velocity, 2_700_000);
    w.step(DT);
    assert_eq!(w.bodies[0].linear_velocity, V2::new(810_000, 1_620_000));
}

#[test]
fn default_damping_bleeds_velocity() {
    let mut w = World::new();
    w.bodies.push(Body::new(V2::new(0, 0)));
    w.step(DT);
    // v picks up gravity, then loses 5% to the default damping
    assert_eq!(w.bodies[0].linear_velocity, V2::new(0, -9_319_500));
}

#[test]
fn step_for_takes_whole_timesteps_and_keeps_the_rest() {
    let mut w = World::new();
    w.gravity = V2::new(0, 0);
    assert!(w.set_damping_factors(SCALE, SCALE).is_ok());
    let mut b = Body::new(V2::new(0, 0));
    b.linear_velocity = V2::new(1_000_000, 0);
    w.bodies.push(b);
    w.step_for(3_500_000, DT, 10);
    // 3.5 seconds at dt = 1: three steps, half a second kept back
    assert_eq!(w.bodies[0].position, V2::new(3_000_000, 0));
    assert_eq!(w.accumulated_time, 500_000);
    // the carry-over joins the next call: 0.6 + 0.5 buys one more step
    w.step_for(600_000, DT, 10);
    assert_eq!(w.bodies[0].position, V2::new(4_000_000, 0));
    assert_eq!(w.accumulated_time, 100_000);
}

#[test]
fn step_for_clamps_at_the_step_budget() {
    let mut w = World::new();
    w.gravity = V2::new(0, 0);
    assert!(w.set_damping_factors(SCALE, SCALE).is_ok());
    let mut b = Body::new(V2::new(0, 0));
    b.linear_velocity = V2::new(1_000_000, 0);
    w.bodies.push(b);
    w.step_for(10_500_000, DT, 2);
    // two steps, then the remaining simulated time is dropped
    assert_eq!(w.bodies[0].position, V2::new(2_000_000, 0));
    assert_eq!(w.accumulated_time, 0);
}

#[test]
fn step_for_stops_at_a_whole_timestep() {
    // the loop runs only while the accumulator strictly exceeds the
    // timestep, so an exact multiple leaves one whole timestep waiting
    let mut w = World::new();
    w.gravity = V2::new(0, 0);
    assert!(w.set_damping_factors(SCALE, SCALE).is_ok());
    let mut b = Body::new(V2::new(0, 0));
    b.linear_velocity = V2::new(1_000_000, 0);
    w.bodies.push(b);
    w.step_for(2_000_000, DT, 10);
    assert_eq!(w.bodies[0].position, V2::new(1_000_000, 0));
    assert_eq!(w.accumulated_time, 1_000_000);
}

#[test]
fn many_bodies_integrate_independently() {
    let mut w = World::new();
    w.gravity = V2::new(0, 0);
    assert!(w.set_damping_factors(SCALE, SCALE).is_ok());
    for i in 0..100i64 {
        let mut b = Body::new(V2::new(i * SCALE, 0));
        b.linear_velocity = V2::new(i * SCALE, -i * SCALE);
        w.bodies.push(b);
    }
    w.step(DT);
    for i in 0..100i64 {
        assert_eq!(w.bodies[i as usize].position, V2::new(2 * i * SCALE, -i * SCALE));
    }
}
