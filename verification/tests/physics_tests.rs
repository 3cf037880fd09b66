use galaxy_sim::fixed::Fx;
use galaxy_sim::fixed::FX_SCALE;
use galaxy_sim::galaxy::get_orbit_speed;
use galaxy_sim::physics::Body;
use galaxy_sim::physics::Force;
use galaxy_sim::physics::PosMass;
use galaxy_sim::screen::Time;

fn body_at(x: i64, y: i64, mass: i64) -> Body {
    Body {
        x: Fx::from_int(x),
        y: Fx::from_int(y),
        vx: Fx::from_int(0),
        vy: Fx::from_int(0),
        mass: Fx::from_int(mass),
        force: Force::new(),
    }
}

#[test]
fn force_new_and_reset_are_zero() {
    let mut f = Force::new();
    assert_eq!(f.N_x.raw, 0);
    assert_eq!(f.N_y.raw, 0);
    f.N_x = Fx::from_int(3);
    f.N_y = Fx::from_int(-2);
    f.reset();
    assert_eq!(f.N_x.raw, 0);
    assert_eq!(f.N_y.raw, 0);
}

#[test]
fn to_velocity_divides_by_mass_and_scales_by_delta() {
    let time = Time { current_time: Fx::from_int(0) };
    let f = Force { N_x: Fx::from_int(2), N_y: Fx::from_int(0) };
    // (2 / 1) * (1/60) = 1/30, raw 2000
    let dv = f.to_velocity(Fx::from_int(1), &time);
    assert_eq!(dv.0.raw, 2000);
    assert_eq!(dv.1.raw, 0);
}

#[test]
fn gravity_pulls_along_the_displacement() {
    // Two bodies of mass 1000 at distance 10: F = G*m*m/r^2 = 200.
    let mut a = body_at(0, 0, 1000);
    let b = body_at(10, 0, 1000);
    a.apply_grav_attraction(PosMass { x: b.x, y: b.y, mass: b.mass });
    assert_eq!(a.force.N_x.raw, 200 * FX_SCALE);
    assert_eq!(a.force.N_y.raw, 0);
}

#[test]
fn equal_masses_pull_equal_and_opposite() {
    // Newton's third law, checked on the executable force computation.
    let mut a = body_at(3, -4, 500);
    let mut b = body_at(-5, 11, 500);
    a.apply_grav_attraction(PosMass { x: b.x, y: b.y, mass: b.mass });
    b.apply_grav_attraction(PosMass { x: a.x, y: a.y, mass: a.mass });
    assert_ne!(a.force.N_x.raw, 0);
    assert_eq!(a.force.N_x.raw, -b.force.N_x.raw);
    assert_eq!(a.force.N_y.raw, -b.force.N_y.raw);
}

#[test]
fn accumulation_order_does_not_matter() {
    // The same two pulls in either order leave the same accumulator.
    let p1 = PosMass { x: Fx::from_int(10), y: Fx::from_int(0), mass: Fx::from_int(1000) };
    let p2 = PosMass { x: Fx::from_int(0), y: Fx::from_int(13), mass: Fx::from_int(2000) };
    let mut a = body_at(0, 0, 1000);
    let mut b = body_at(0, 0, 1000);
    a.apply_grav_attraction(p1);
    a.apply_grav_attraction(p2);
    b.apply_grav_attraction(p2);
    b.apply_grav_attraction(p1);
    assert_eq!(a.force.N_x.raw, b.force.N_x.raw);
    assert_eq!(a.force.N_y.raw, b.force.N_y.raw);
    // and the total is the sum of the separate pulls
    let mut only1 = body_at(0, 0, 1000);
    let mut only2 = body_at(0, 0, 1000);
    only1.apply_grav_attraction(p1);
    only2.apply_grav_attraction(p2);
    assert_eq!(a.force.N_x.raw, only1.force.N_x.raw + only2.force.N_x.raw);
    assert_eq!(a.force.N_y.raw, only1.force.N_y.raw + only2.force.N_y.raw);
}

#[test]
fn tick_updates_velocity_before_position() {
    // Force 2 on mass 1: dv = 2/60 (raw 2000); the *new* velocity moves
    // the position: dx = (1 + 1/30) * (1/60).
    let time = Time { current_time: Fx::from_int(0) };
    let mut b = body_at(0, 0, 1);
    b.vx = Fx::from_int(1);
    b.force.N_x = Fx::from_int(2);
    b.tick(&time);
    assert_eq!(b.vx.raw, FX_SCALE + 2000);
    // position moved by fmul(62000, 1000) = 62000 * 1000 / 60000 = 1033
    assert_eq!(b.x.raw, 1033);
    assert_eq!(b.force.N_x.raw, 0);
    assert_eq!(b.force.N_y.raw, 0);
}

#[test]
fn zero_force_motion_is_linear() {
    // With no force the position advances by velocity * delta each step.
    let time = Time { current_time: Fx::from_int(0) };
    let mut b = body_at(0, 0, 1);
    b.vx = Fx::from_int(3);
    b.vy = Fx::from_int(-2);
    for _ in 0..60 {
        b.tick(&time);
    }
    // per-step increments: 3*1000 = 3000 raw, -2*1000 = -2000 raw
    assert_eq!(b.x.raw, 60 * 3000);
    assert_eq!(b.y.raw, 60 * -2000);
    assert_eq!(b.vx.raw, 3 * FX_SCALE);
    assert_eq!(b.vy.raw, -2 * FX_SCALE);
}

#[test]
fn body_accessors_mutate_in_place() {
    let mut b = body_at(1, 2, 3);
    let p = b.get_position();
    assert_eq!((p.x.raw, p.y.raw), (FX_SCALE, 2 * FX_SCALE));
    b.set_position(Fx::from_int(9), Fx::from_int(8));
    assert_eq!((b.x.raw, b.y.raw), (9 * FX_SCALE, 8 * FX_SCALE));
    b.add_position(Fx::from_int(1), Fx::from_int(-1));
    assert_eq!((b.x.raw, b.y.raw), (10 * FX_SCALE, 7 * FX_SCALE));
    b.add_velocity(Fx::from_int(2), Fx::from_int(3));
    assert_eq!((b.vx.raw, b.vy.raw), (2 * FX_SCALE, 3 * FX_SCALE));
    assert_eq!(b.get_mass().raw, 3 * FX_SCALE);
    b.get_force().N_x = Fx::from_int(1);
    assert_eq!(b.force.N_x.raw, FX_SCALE);
}

#[test]
fn orbit_speed_formula() {
    // sqrt(G * M / r) with G = 0.02, M = 100000, r = 10: sqrt(200).
    let v = get_orbit_speed(Fx::from_int(10), Fx::from_int(100000));
    assert_eq!(v.raw, 848528);
}
