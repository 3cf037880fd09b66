use galaxy_sim::fixed::Fx;
use galaxy_sim::fixed::FX_SCALE;
use galaxy_sim::galaxy::get_orbit_speed;
use galaxy_sim::physics::Body;
use galaxy_sim::physics::Force;
use galaxy_sim::screen::Screen;
use galaxy_sim::screen::Time;

/// A light star seeded at the orbit speed around a heavy central mass
/// stays on a near-circular path: its radius remains close to the
/// initial 10 units over 1000 whole simulation steps.
#[test]
fn orbit_speed_keeps_radius_bounded() {
    let mut s = Screen::new();
    let center_mass = Fx::from_int(100000);
    let center = Body {
        x: Fx::from_int(75),
        y: Fx::from_int(75),
        vx: Fx::from_int(0),
        vy: Fx::from_int(0),
        mass: center_mass,
        force: Force::new(),
    };
    let speed = get_orbit_speed(Fx::from_int(10), center_mass);
    let star = Body {
        x: Fx::from_int(85),
        y: Fx::from_int(75),
        vx: Fx::from_int(0),
        vy: speed,
        mass: Fx::from_int(1),
        force: Force::new(),
    };
    assert_eq!(s.add_body(center), Ok(()));
    assert_eq!(s.add_body(star), Ok(()));

    let mut time = Time { current_time: Fx::from_int(0) };
    let lo = (9 * FX_SCALE) * (9 * FX_SCALE);
    let hi = (11 * FX_SCALE) * (11 * FX_SCALE);
    for _ in 0..1000 {
        time.tick();
        s.tick(&time);
        s.clear();
        let c = s.get_body(0);
        let b = s.get_body(1);
        let dx = b.x.raw - c.x.raw;
        let dy = b.y.raw - c.y.raw;
        let rr = dx * dx + dy * dy;
        assert!(rr > lo && rr < hi, "radius left the orbit band");
    }
    // the light star never moved the heavy centre (it is below the
    // mass-significance cutoff)
    let c = s.get_body(0);
    assert_eq!(c.x.raw, 75 * FX_SCALE);
    assert_eq!(c.y.raw, 75 * FX_SCALE);
}
