use galaxy_sim::fixed::Fx;
use galaxy_sim::fixed::FX_SCALE;
use galaxy_sim::physics::Body;
use galaxy_sim::physics::Force;
use galaxy_sim::screen::luminance_glyph;
use galaxy_sim::screen::luminance_index;
use galaxy_sim::screen::ConfigError;
use galaxy_sim::screen::Screen;
use galaxy_sim::screen::Time;
use galaxy_sim::screen::DELTA_TIME_RAW;
use galaxy_sim::screen::SCREEN_SIZE_X;
use galaxy_sim::screen::SCREEN_SIZE_Y;

fn frame_is_blank(rows: &Vec<Vec<char>>) -> bool {
    rows.iter().all(|row| row.iter().all(|c| *c == ' '))
}

#[test]
fn new_screen_renders_blank() {
    let s = Screen::new();
    let rows = s.draw();
    assert_eq!(rows.len(), SCREEN_SIZE_Y);
    assert!(rows.iter().all(|row| row.len() == SCREEN_SIZE_X));
    assert!(frame_is_blank(&rows));
}

#[test]
fn time_advances_by_fixed_delta() {
    let mut t = Time { current_time: Fx::from_int(0) };
    assert_eq!(t.delta_time().raw, DELTA_TIME_RAW);
    t.tick();
    t.tick();
    assert_eq!(t.current_time.raw, 2 * DELTA_TIME_RAW);
}

#[test]
fn origin_boundary_is_not_drawn() {
    // x == 0 and y == 0 are outside: the boundary is exclusive.
    let mut s = Screen::new();
    s.draw_position(Fx::from_int(0), Fx::from_int(5), Fx::from_int(1));
    s.draw_position(Fx::from_int(5), Fx::from_int(0), Fx::from_int(1));
    assert!(frame_is_blank(&s.draw()));
}

#[test]
fn far_edge_is_not_drawn() {
    // x == WIDTH, and y with y * Y_SQUISH == HEIGHT, are outside too.
    let mut s = Screen::new();
    s.draw_position(Fx::from_int(150), Fx::from_int(5), Fx::from_int(1));
    s.draw_position(Fx::from_int(5), Fx::from_int(75), Fx::from_int(1));
    assert!(frame_is_blank(&s.draw()));
}

#[test]
fn last_cell_is_drawn() {
    // (WIDTH - 0.5, 0.5 / Y_SQUISH) lands in the last column of row 0.
    let mut s = Screen::new();
    let x = Fx::from_raw(149 * FX_SCALE + FX_SCALE / 2);
    let y = Fx::from_raw(50000); // 5/6: times 3/5 gives exactly 0.5
    s.draw_position(x, y, Fx::from_int(1));
    let rows = s.draw();
    assert_eq!(rows[0][SCREEN_SIZE_X - 1], '.');
    // nothing else is occupied
    let occupied: usize =
        rows.iter().map(|r| r.iter().filter(|c| **c != ' ').count()).sum();
    assert_eq!(occupied, 1);
}

#[test]
fn luminance_index_is_clamped_floor() {
    // index = clamp(floor(density * 0.9), 0, 6)
    assert_eq!(luminance_index(0), 0);
    assert_eq!(luminance_index(1), 0);
    assert_eq!(luminance_index(2), 1);
    assert_eq!(luminance_index(3), 2);
    assert_eq!(luminance_index(7), 6);
    assert_eq!(luminance_index(8), 6);
    assert_eq!(luminance_index(1000), 6);
}

#[test]
fn luminance_ramp_glyphs() {
    let ramp: Vec<char> = (0..7).map(luminance_glyph).collect();
    assert_eq!(ramp, vec!['.', ',', ':', 'i', 'l', 'w', '@']);
}

#[test]
fn eight_bodies_on_one_cell_reach_peak_brightness() {
    // 8 unit masses on one cell: floor(8 * 0.9) = 7, clamped to 6 ('@').
    let mut s = Screen::new();
    for _ in 0..8 {
        s.draw_position(Fx::from_int(10), Fx::from_int(10), Fx::from_int(1));
    }
    let rows = s.draw();
    // row floor(10 * 0.6) = 6, column 10
    assert_eq!(rows[6][10], '@');
}

#[test]
fn one_body_renders_dim() {
    let mut s = Screen::new();
    s.draw_position(Fx::from_int(10), Fx::from_int(10), Fx::from_int(1));
    let rows = s.draw();
    assert_eq!(rows[6][10], '.');
}

#[test]
fn sub_unit_mass_marks_but_adds_no_density() {
    // floor(0.5) = 0: occupied, density 0, so the dimmest glyph.
    let mut s = Screen::new();
    s.draw_position(Fx::from_int(20), Fx::from_int(20), Fx::from_raw(FX_SCALE / 2));
    let rows = s.draw();
    assert_eq!(rows[12][20], '.');
}

#[test]
fn clear_frame_resets_everything() {
    let mut s = Screen::new();
    for _ in 0..8 {
        s.draw_position(Fx::from_int(10), Fx::from_int(10), Fx::from_int(1));
    }
    assert!(!frame_is_blank(&s.draw()));
    s.clear();
    assert!(frame_is_blank(&s.draw()));
    // densities were reset too: one new draw renders dim, not bright
    s.draw_position(Fx::from_int(10), Fx::from_int(10), Fx::from_int(1));
    assert_eq!(s.draw()[6][10], '.');
}

#[test]
fn add_body_rejects_non_positive_mass() {
    let mut s = Screen::new();
    let mut b = Body {
        x: Fx::from_int(1),
        y: Fx::from_int(1),
        vx: Fx::from_int(0),
        vy: Fx::from_int(0),
        mass: Fx::from_int(0),
        force: Force::new(),
    };
    assert_eq!(s.add_body(b), Err(ConfigError::NonPositiveMass));
    assert_eq!(s.body_count(), 0);
    b.mass = Fx::from_int(5);
    assert_eq!(s.add_body(b), Ok(()));
    assert_eq!(s.body_count(), 1);
    assert_eq!(s.get_body(0).mass.raw, 5 * FX_SCALE);
}
