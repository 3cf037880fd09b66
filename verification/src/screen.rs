//! The frame buffer, the rasterizer and the simulation clock.
//!
//! The grid is a fixed `SCREEN_SIZE_X x SCREEN_SIZE_Y` field of cells,
//! each holding an occupancy mark and an accumulated density counter.
//! `Screen::tick` runs one whole simulation step: snapshot, pairwise
//! force accumulation, integration, and rasterization of the pre-step
//! snapshot. Terminal output is not done here; `draw` returns the rows
//! of glyphs and the caller owns the device.

use crate::fixed::fadd;
use crate::fixed::Fx;
use crate::fixed::FX_SCALE;
use crate::fixed::RAW_BOUND;
use crate::physics::body_tick_spec;
use crate::physics::grav_apply_spec;
use crate::physics::lemma_manhattan_applicable;
use crate::physics::manhattan;
use crate::physics::pair_force_x;
use crate::physics::pair_force_y;
use crate::physics::Body;
use crate::physics::Pos;
use crate::physics::PosMass;
use vstd::prelude::*;

verus! {

/// Grid width in cells.
pub const SCREEN_SIZE_X: usize = 150;

/// Grid height in cells.
pub const SCREEN_SIZE_Y: usize = 45;

/// Number of cells in the grid.
pub const SCREEN_AREA: usize = 6750;

/// Vertical compression `Y_SQUISH = 3/5`, applied to y only so that the
/// tall terminal cells do not stretch the picture.
pub const Y_SQUISH_NUM: i64 = 3;

/// Denominator of the vertical compression factor.
pub const Y_SQUISH_DEN: i64 = 5;

/// Fixed time delta per step, raw units (1/60 of a unit).
pub const DELTA_TIME_RAW: i64 = 1000;

/// Number of luminance glyphs in the brightness ramp.
pub const LUMINANCE_COUNT: u8 = 7;

/// Density-to-luminance factor 9/10: how many overlapping bodies reach
/// peak brightness.
pub const LUMINANCE_DENSITY_NUM: i64 = 9;

/// Denominator of the density-to-luminance factor.
pub const LUMINANCE_DENSITY_DEN: i64 = 10;

/// Bodies lighter than this (100 whole units) are skipped as force
/// sources; a cheap significance filter, not a correctness rule.
pub const MASS_SIGNIFICANCE_RAW: i64 = 6000000;

/// The simulation clock: logical time advancing by a fixed delta.
pub struct Time {
    pub current_time: Fx,
}

impl Time {
    /// Advance logical time by one fixed delta.
    pub fn tick(&mut self)
        ensures
            final(self).current_time.raw as int == fadd(
                old(self).current_time.raw as int,
                DELTA_TIME_RAW as int,
            ),
    {
        let d = self.delta_time();
        self.current_time = self.current_time.add(d);
    }

    /// The fixed per-step time delta.
    pub fn delta_time(&self) -> (r: Fx)
        ensures
            r.raw == DELTA_TIME_RAW,
    {
        Fx::from_raw(DELTA_TIME_RAW)
    }
}

/// The configuration faults that `add_body` rejects.
#[derive(Clone, Copy, PartialEq, Eq, Structural, Debug)]
pub enum ConfigError {
    /// A body's mass must be strictly positive (forces divide by it).
    NonPositiveMass,
}

/// A position is drawable iff it lies strictly inside the grid:
/// `0 < x < WIDTH` and `0 < y * Y_SQUISH < HEIGHT`. The boundary is
/// exclusive; out-of-range bodies are skipped, never clamped.
pub open spec fn drawable(x: Fx, y: Fx) -> bool {
    x.raw > 0 && (x.raw as int) < (SCREEN_SIZE_X as int) * (FX_SCALE as int) && y.raw > 0 && (
    y.raw as int) * (Y_SQUISH_NUM as int) < (SCREEN_SIZE_Y as int) * (Y_SQUISH_DEN as int) * (
    FX_SCALE as int)
}

/// Column of a drawable position: `floor(x)`.
pub open spec fn x_index_of(x: Fx) -> int {
    (x.raw as int) / (FX_SCALE as int)
}

/// Row of a drawable position: `floor(y * Y_SQUISH)`.
pub open spec fn y_index_of(y: Fx) -> int {
    ((y.raw as int) * (Y_SQUISH_NUM as int)) / ((Y_SQUISH_DEN as int) * (FX_SCALE as int))
}

/// Row-major cell index of a drawable position.
pub open spec fn cell_index(x: Fx, y: Fx) -> int {
    y_index_of(y) * (SCREEN_SIZE_X as int) + x_index_of(x)
}

/// Density a body of mass `m` adds to its cell: `floor(m)`, saturating
/// into the counter's range; sub-unit and non-positive masses add zero.
pub open spec fn mass_density(m: Fx) -> int {
    if m.raw <= 0 {
        0
    } else if (m.raw as int) / (FX_SCALE as int) > u32::MAX as int {
        u32::MAX as int
    } else {
        (m.raw as int) / (FX_SCALE as int)
    }
}

/// Saturating addition on density counters.
pub open spec fn sat_add_u32(a: int, b: int) -> int {
    if a + b > u32::MAX as int {
        u32::MAX as int
    } else {
        a + b
    }
}

/// Luminance index of a density counter:
/// `clamp(floor(density * 9/10), 0, LUMINANCE_COUNT - 1)`.
pub open spec fn luminance_index_spec(d: int) -> int
    recommends
        d >= 0,
{
    if (d * (LUMINANCE_DENSITY_NUM as int)) / (LUMINANCE_DENSITY_DEN as int) > 6 {
        6
    } else {
        (d * (LUMINANCE_DENSITY_NUM as int)) / (LUMINANCE_DENSITY_DEN as int)
    }
}

/// The brightness ramp, dim to bright.
pub open spec fn glyph_of(i: int) -> char {
    if i <= 0 {
        '.'
    } else if i == 1 {
        ','
    } else if i == 2 {
        ':'
    } else if i == 3 {
        'i'
    } else if i == 4 {
        'l'
    } else if i == 5 {
        'w'
    } else {
        '@'
    }
}

/// What a cell renders as: blank if unoccupied, otherwise the glyph for
/// its density's luminance index.
pub open spec fn render_cell(c: char, d: int) -> char {
    if c == ' ' {
        ' '
    } else {
        glyph_of(luminance_index_spec(d))
    }
}

/// The per-step snapshot: every body's position and mass, in collection
/// order.
pub open spec fn snapshot_spec(bodies: Seq<Body>) -> Seq<PosMass> {
    bodies.map_values(|b: Body| b.pos_mass())
}

/// The solver accumulates the pull of `o` on a body at `p` iff `o` is
/// heavy enough to matter and the two are not nearly coincident (the
/// Manhattan-distance proximity filter).
pub open spec fn contributes(p: PosMass, o: PosMass) -> bool {
    o.mass.raw >= MASS_SIGNIFICANCE_RAW && manhattan(p, o) > FX_SCALE as int
}

/// The body after the pulls of the first `n` snapshot entries have been
/// accumulated, in order.
pub open spec fn accum_forces(b: Body, snap: Seq<PosMass>, n: int) -> Body
    decreases n,
{
    if n <= 0 {
        b
    } else {
        let prev = accum_forces(b, snap, n - 1);
        if contributes(prev.pos_mass(), snap[n - 1]) {
            grav_apply_spec(prev, snap[n - 1])
        } else {
            prev
        }
    }
}

/// The body after the whole force pass over the snapshot.
pub open spec fn forces_after(b: Body, snap: Seq<PosMass>) -> Body {
    accum_forces(b, snap, snap.len() as int)
}

/// Accumulating forces touches only the force accumulator.
pub proof fn lemma_accum_preserves(b: Body, snap: Seq<PosMass>, n: int)
    ensures
        accum_forces(b, snap, n).x == b.x,
        accum_forces(b, snap, n).y == b.y,
        accum_forces(b, snap, n).vx == b.vx,
        accum_forces(b, snap, n).vy == b.vy,
        accum_forces(b, snap, n).mass == b.mass,
    decreases n,
{
    if n > 0 {
        lemma_accum_preserves(b, snap, n - 1);
    }
}

/// The x-contribution of snapshot entry `o` to the force on a body at
/// `p`: the pairwise force if the solver's filters admit the pair,
/// nothing otherwise.
pub open spec fn contribution_x(p: PosMass, o: PosMass) -> int {
    if contributes(p, o) {
        pair_force_x(p, o)
    } else {
        0
    }
}

/// The y-contribution of snapshot entry `o` to the force on a body at `p`.
pub open spec fn contribution_y(p: PosMass, o: PosMass) -> int {
    if contributes(p, o) {
        pair_force_y(p, o)
    } else {
        0
    }
}

/// Plain (unsaturated) sum of the x-contributions of the first `n`
/// snapshot entries.
pub open spec fn force_sum_x(p: PosMass, snap: Seq<PosMass>, n: int) -> int
    decreases n,
{
    if n <= 0 {
        0
    } else {
        force_sum_x(p, snap, n - 1) + contribution_x(p, snap[n - 1])
    }
}

/// Plain (unsaturated) sum of the y-contributions of the first `n`
/// snapshot entries.
pub open spec fn force_sum_y(p: PosMass, snap: Seq<PosMass>, n: int) -> int
    decreases n,
{
    if n <= 0 {
        0
    } else {
        force_sum_y(p, snap, n - 1) + contribution_y(p, snap[n - 1])
    }
}

/// The sum of the first `n` contributions reads only the first `n`
/// entries.
proof fn lemma_force_sum_prefix(p: PosMass, s1: Seq<PosMass>, s2: Seq<PosMass>, n: int)
    requires
        n <= s1.len(),
        n <= s2.len(),
        forall|i: int| 0 <= i < n ==> s1[i] == s2[i],
    ensures
        force_sum_x(p, s1, n) == force_sum_x(p, s2, n),
        force_sum_y(p, s1, n) == force_sum_y(p, s2, n),
    decreases n,
{
    if n > 0 {
        lemma_force_sum_prefix(p, s1, s2, n - 1);
    }
}

/// Accumulation of x-contributions as a fold operator.
pub open spec fn accum_op_x(p: PosMass) -> spec_fn(PosMass, int) -> int {
    |o: PosMass, acc: int| acc + contribution_x(p, o)
}

/// Accumulation of y-contributions as a fold operator.
pub open spec fn accum_op_y(p: PosMass) -> spec_fn(PosMass, int) -> int {
    |o: PosMass, acc: int| acc + contribution_y(p, o)
}

/// Folding the contributions over a snapshot is the same as summing them.
proof fn lemma_fold_is_force_sum(p: PosMass, s: Seq<PosMass>, b: int)
    ensures
        s.fold_right(accum_op_x(p), b) == force_sum_x(p, s, s.len() as int) + b,
        s.fold_right(accum_op_y(p), b) == force_sum_y(p, s, s.len() as int) + b,
    decreases s.len(),
{
    if s.len() > 0 {
        lemma_fold_is_force_sum(p, s.drop_last(), accum_op_x(p)(s.last(), b));
        lemma_fold_is_force_sum(p, s.drop_last(), accum_op_y(p)(s.last(), b));
        lemma_force_sum_prefix(p, s, s.drop_last(), s.len() - 1);
    }
}

/// The total force a snapshot exerts on a body does not depend on the
/// order the snapshot is walked in: two snapshots holding the same
/// entries (as a multiset) give the same vector sum.
pub proof fn lemma_force_sum_permutation(p: PosMass, s1: Seq<PosMass>, s2: Seq<PosMass>)
    requires
        s1.to_multiset() == s2.to_multiset(),
    ensures
        force_sum_x(p, s1, s1.len() as int) == force_sum_x(p, s2, s2.len() as int),
        force_sum_y(p, s1, s1.len() as int) == force_sum_y(p, s2, s2.len() as int),
{
    let fx = accum_op_x(p);
    let fy = accum_op_y(p);
    assert(vstd::seq_lib::commutative_foldr(fx)) by {
        assert forall|o1: PosMass, o2: PosMass, v: int| #[trigger] fx(o1, fx(o2, v)) == fx(
            o2,
            fx(o1, v),
        ) by {}
    }
    assert(vstd::seq_lib::commutative_foldr(fy)) by {
        assert forall|o1: PosMass, o2: PosMass, v: int| #[trigger] fy(o1, fy(o2, v)) == fy(
            o2,
            fy(o1, v),
        ) by {}
    }
    vstd::seq_lib::lemma_fold_right_permutation(s1, s2, fx, 0);
    vstd::seq_lib::lemma_fold_right_permutation(s1, s2, fy, 0);
    lemma_fold_is_force_sum(p, s1, 0);
    lemma_fold_is_force_sum(p, s2, 0);
}

/// The force the solver accumulates on a body over a snapshot is the
/// plain vector sum of the admitted pairwise forces, as long as no
/// partial sum saturates; with `lemma_force_sum_permutation`, the order
/// of accumulation cannot matter.
pub proof fn lemma_accum_is_vector_sum(b: Body, snap: Seq<PosMass>, n: int)
    requires
        forall|k: int|
            0 <= k <= n ==> -(RAW_BOUND as int) <= b.force.N_x.raw + #[trigger] force_sum_x(
                b.pos_mass(),
                snap,
                k,
            ) <= RAW_BOUND as int,
        forall|k: int|
            0 <= k <= n ==> -(RAW_BOUND as int) <= b.force.N_y.raw + #[trigger] force_sum_y(
                b.pos_mass(),
                snap,
                k,
            ) <= RAW_BOUND as int,
    ensures
        accum_forces(b, snap, n).force.N_x.raw as int == b.force.N_x.raw + force_sum_x(
            b.pos_mass(),
            snap,
            n,
        ),
        accum_forces(b, snap, n).force.N_y.raw as int == b.force.N_y.raw + force_sum_y(
            b.pos_mass(),
            snap,
            n,
        ),
    decreases n,
{
    if n > 0 {
        lemma_accum_is_vector_sum(b, snap, n - 1);
        lemma_accum_preserves(b, snap, n - 1);
        assert(accum_forces(b, snap, n - 1).pos_mass() == b.pos_mass());
    }
}

/// The occupancy grid after rasterizing the first `n` snapshot entries.
pub open spec fn draw_grid(grid: Seq<char>, snap: Seq<PosMass>, n: int) -> Seq<char>
    decreases n,
{
    if n <= 0 {
        grid
    } else {
        let g = draw_grid(grid, snap, n - 1);
        let p = snap[n - 1];
        if drawable(p.x, p.y) {
            g.update(cell_index(p.x, p.y), '@')
        } else {
            g
        }
    }
}

/// The density grid after rasterizing the first `n` snapshot entries.
pub open spec fn draw_dens(dens: Seq<u32>, snap: Seq<PosMass>, n: int) -> Seq<u32>
    decreases n,
{
    if n <= 0 {
        dens
    } else {
        let d = draw_dens(dens, snap, n - 1);
        let p = snap[n - 1];
        if drawable(p.x, p.y) {
            d.update(
                cell_index(p.x, p.y),
                sat_add_u32(d[cell_index(p.x, p.y)] as int, mass_density(p.mass)) as u32,
            )
        } else {
            d
        }
    }
}

/// Luminance index of a density counter, exactly
/// `clamp(floor(density * 9/10), 0, LUMINANCE_COUNT - 1)`.
pub fn luminance_index(density: u32) -> (r: u32)
    ensures
        r as int == luminance_index_spec(density as int),
        r < 7,
{
    let scaled: u64 = (density as u64) * 9 / 10;
    if scaled > 6 {
        6
    } else {
        scaled as u32
    }
}

/// The glyph of the brightness ramp at `index`.
pub fn luminance_glyph(index: u32) -> (r: char)
    ensures
        r == glyph_of(index as int),
{
    if index == 0 {
        '.'
    } else if index == 1 {
        ','
    } else if index == 2 {
        ':'
    } else if index == 3 {
        'i'
    } else if index == 4 {
        'l'
    } else if index == 5 {
        'w'
    } else {
        '@'
    }
}

/// Occupied marking is idempotent: a second body landing on an
/// already-marked cell leaves the occupancy grid unchanged (only the
/// density counter grows).
pub proof fn lemma_occupied_marking_idempotent(grid: Seq<char>, i: int)
    requires
        0 <= i < grid.len(),
    ensures
        grid.update(i, '@').update(i, '@') == grid.update(i, '@'),
{
    assert(grid.update(i, '@').update(i, '@') =~= grid.update(i, '@'));
}

/// A frame whose cells are all unoccupied renders as all blanks,
/// whatever the density counters hold: after a clear with no draws, the
/// rendered frame is empty.
pub proof fn lemma_blank_frame_renders_blank(grid: Seq<char>, dens: Seq<u32>)
    requires
        forall|k: int| 0 <= k < grid.len() ==> #[trigger] grid[k] == ' ',
    ensures
        forall|k: int|
            0 <= k < grid.len() && 0 <= k < dens.len() ==> #[trigger] render_cell(
                grid[k],
                dens[k] as int,
            ) == ' ',
{
}

/// The frame buffer and the bodies it renders.
pub struct Screen {
    screen: Vec<char>,
    objs: Vec<Body>,
    obj_buffer: Vec<u32>,
}

impl Screen {
    /// The occupancy grid, row-major.
    pub closed spec fn grid(&self) -> Seq<char> {
        self.screen@
    }

    /// The density counters, row-major.
    pub closed spec fn densities(&self) -> Seq<u32> {
        self.obj_buffer@
    }

    /// The body collection, in insertion order.
    pub closed spec fn bodies(&self) -> Seq<Body> {
        self.objs@
    }

    /// Both grids span the fixed area and every body has positive mass.
    pub closed spec fn wf(&self) -> bool {
        &&& self.screen@.len() == SCREEN_AREA
        &&& self.obj_buffer@.len() == SCREEN_AREA
        &&& forall|k: int|
            0 <= k < self.objs@.len() ==> (#[trigger] self.objs@[k]).mass.raw > 0
    }

    /// An empty screen: blank grid, zero densities, no bodies.
    pub fn new() -> (r: Screen)
        ensures
            r.wf(),
            r.bodies().len() == 0,
            forall|k: int|
                0 <= k < SCREEN_AREA ==> #[trigger] r.grid()[k] == ' ' && r.densities()[k] == 0,
    {
        let mut screen: Vec<char> = Vec::new();
        let mut obj_buffer: Vec<u32> = Vec::new();
        let mut k: usize = 0;
        while k < SCREEN_AREA
            invariant
                k <= SCREEN_AREA,
                screen@.len() == k,
                obj_buffer@.len() == k,
                forall|m: int| 0 <= m < k ==> #[trigger] screen@[m] == ' ' && obj_buffer@[m] == 0,
            decreases SCREEN_AREA - k,
        {
            screen.push(' ');
            obj_buffer.push(0u32);
            k += 1;
        }
        Screen { screen, objs: Vec::new(), obj_buffer }
    }

    /// Reset every cell to blank and every density to zero; the bodies
    /// are untouched. Runs once per frame, after the sink consumed the
    /// buffer.
    pub fn clear(&mut self)
        requires
            old(self).wf(),
        ensures
            final(self).wf(),
            final(self).bodies() == old(self).bodies(),
            forall|k: int|
                0 <= k < SCREEN_AREA ==> #[trigger] final(self).grid()[k] == ' '
                    && final(self).densities()[k] == 0,
    {
        let mut k: usize = 0;
        while k < SCREEN_AREA
            invariant
                k <= SCREEN_AREA,
                self.screen@.len() == SCREEN_AREA,
                self.obj_buffer@.len() == SCREEN_AREA,
                self.objs@ == old(self).objs@,
                forall|m: int|
                    0 <= m < k ==> #[trigger] self.screen@[m] == ' ' && self.obj_buffer@[m] == 0,
            decreases SCREEN_AREA - k,
        {
            self.screen.set(k, ' ');
            self.obj_buffer.set(k, 0u32);
            k += 1;
        }
    }

    /// Add a body at setup time. A non-positive mass is an invalid
    /// configuration and is rejected, since forces divide by the mass.
    pub fn add_body(&mut self, body: Body) -> (r: Result<(), ConfigError>)
        requires
            old(self).wf(),
        ensures
            final(self).wf(),
            r is Ok <==> body.mass.raw > 0,
            r is Err ==> r == Err::<(), ConfigError>(ConfigError::NonPositiveMass),
            body.mass.raw > 0 ==> final(self).bodies() == old(self).bodies().push(body),
            body.mass.raw <= 0 ==> final(self).bodies() == old(self).bodies(),
            final(self).grid() == old(self).grid(),
            final(self).densities() == old(self).densities(),
    {
        if body.mass.raw <= 0 {
            return Err(ConfigError::NonPositiveMass);
        }
        self.objs.push(body);
        Ok(())
    }

    /// Number of bodies in the collection.
    pub fn body_count(&self) -> (r: usize)
        ensures
            r == self.bodies().len(),
    {
        self.objs.len()
    }

    /// The body at index `k`.
    pub fn get_body(&self, k: usize) -> (r: Body)
        requires
            k < self.bodies().len(),
        ensures
            r == self.bodies()[k as int],
    {
        self.objs[k]
    }

    /// Mark a cell occupied with the given mark.
    fn set_position(&mut self, x_index: usize, y_index: usize, luminance: char)
        requires
            old(self).wf(),
            x_index < SCREEN_SIZE_X,
            y_index < SCREEN_SIZE_Y,
        ensures
            final(self).wf(),
            final(self).bodies() == old(self).bodies(),
            final(self).densities() == old(self).densities(),
            final(self).grid() == old(self).grid().update(
                y_index * SCREEN_SIZE_X + x_index,
                luminance,
            ),
    {
        let idx: usize = y_index * SCREEN_SIZE_X + x_index;
        self.screen.set(idx, luminance);
    }

    /// Add `floor(mass)` to a cell's density counter, saturating.
    fn set_position_buffer(&mut self, x_index: usize, y_index: usize, position_mass: Fx)
        requires
            old(self).wf(),
            x_index < SCREEN_SIZE_X,
            y_index < SCREEN_SIZE_Y,
        ensures
            final(self).wf(),
            final(self).bodies() == old(self).bodies(),
            final(self).grid() == old(self).grid(),
            final(self).densities() == old(self).densities().update(
                y_index * SCREEN_SIZE_X + x_index,
                sat_add_u32(
                    old(self).densities()[y_index * SCREEN_SIZE_X + x_index] as int,
                    mass_density(position_mass),
                ) as u32,
            ),
    {
        let idx: usize = y_index * SCREEN_SIZE_X + x_index;
        let d: u32 = if position_mass.raw <= 0 {
            0u32
        } else {
            let whole: u64 = (position_mass.raw as u64) / (FX_SCALE as u64);
            if whole > u32::MAX as u64 {
                u32::MAX
            } else {
                whole as u32
            }
        };
        let cur: u32 = self.obj_buffer[idx];
        let nv: u32 = if cur > u32::MAX - d {
            u32::MAX
        } else {
            cur + d
        };
        self.obj_buffer.set(idx, nv);
    }

    /// Whether a position lands strictly inside the grid.
    fn is_drawable(&self, x: Fx, y: Fx) -> (r: bool)
        ensures
            r == drawable(x, y),
    {
        let xmax: i64 = 9000000;
        let ynum: i128 = (y.raw as i128) * (Y_SQUISH_NUM as i128);
        let ymax: i128 = 13500000;
        proof {
            assert((SCREEN_SIZE_X as int) * (FX_SCALE as int) == 9000000);
            assert((SCREEN_SIZE_Y as int) * (Y_SQUISH_DEN as int) * (FX_SCALE as int)
                == 13500000);
        }
        x.raw > 0 && x.raw < xmax && y.raw > 0 && ynum < ymax
    }

    /// Rasterize one body: if its position is drawable, mark the cell
    /// occupied and add `floor(mass)` to the cell's density; otherwise
    /// leave the frame untouched.
    pub fn draw_position(&mut self, x: Fx, y: Fx, mass: Fx)
        requires
            old(self).wf(),
        ensures
            final(self).wf(),
            final(self).bodies() == old(self).bodies(),
            drawable(x, y) ==> final(self).grid() == old(self).grid().update(
                cell_index(x, y),
                '@',
            ),
            drawable(x, y) ==> final(self).densities() == old(self).densities().update(
                cell_index(x, y),
                sat_add_u32(
                    old(self).densities()[cell_index(x, y)] as int,
                    mass_density(mass),
                ) as u32,
            ),
            !drawable(x, y) ==> final(self).grid() == old(self).grid() && final(self).densities()
                == old(self).densities(),
    {
        if !self.is_drawable(x, y) {
            return;
        }
        let x_index: usize = ((x.raw as u64) / (FX_SCALE as u64)) as usize;
        let y_index: usize = (((y.raw as u128) * (Y_SQUISH_NUM as u128)) / 300000u128) as usize;
        proof {
            assert((Y_SQUISH_DEN as int) * (FX_SCALE as int) == 300000);
        }
        proof {
            vstd::arithmetic::div_mod::lemma_div_is_ordered(
                x.raw as int,
                9000000 - 1,
                FX_SCALE as int,
            );
            vstd::arithmetic::div_mod::lemma_div_is_ordered(
                (y.raw as int) * (Y_SQUISH_NUM as int),
                13500000 - 1,
                300000,
            );
        }
        self.set_position(x_index, y_index, '@');
        self.set_position_buffer(x_index, y_index, mass);
    }

    /// Render the frame: one row of glyphs per grid row, blank where a
    /// cell is unoccupied, the density's luminance glyph where it is.
    pub fn draw(&self) -> (r: Vec<Vec<char>>)
        requires
            self.wf(),
        ensures
            r@.len() == SCREEN_SIZE_Y,
            forall|yi: int| 0 <= yi < SCREEN_SIZE_Y ==> (#[trigger] r@[yi])@.len() == SCREEN_SIZE_X,
            forall|yi: int, xi: int|
                0 <= yi < SCREEN_SIZE_Y && 0 <= xi < SCREEN_SIZE_X ==> #[trigger] r@[yi]@[xi]
                    == render_cell(
                    self.grid()[yi * SCREEN_SIZE_X + xi],
                    self.densities()[yi * SCREEN_SIZE_X + xi] as int,
                ),
    {
        let mut rows: Vec<Vec<char>> = Vec::new();
        let mut yi: usize = 0;
        while yi < SCREEN_SIZE_Y
            invariant
                self.wf(),
                yi <= SCREEN_SIZE_Y,
                rows@.len() == yi,
                forall|y2: int| 0 <= y2 < yi ==> (#[trigger] rows@[y2])@.len() == SCREEN_SIZE_X,
                forall|y2: int, x2: int|
                    0 <= y2 < yi && 0 <= x2 < SCREEN_SIZE_X ==> #[trigger] rows@[y2]@[x2]
                        == render_cell(
                        self.grid()[y2 * SCREEN_SIZE_X + x2],
                        self.densities()[y2 * SCREEN_SIZE_X + x2] as int,
                    ),
            decreases SCREEN_SIZE_Y - yi,
        {
            let mut row: Vec<char> = Vec::new();
            let mut xi: usize = 0;
            while xi < SCREEN_SIZE_X
                invariant
                    self.wf(),
                    yi < SCREEN_SIZE_Y,
                    xi <= SCREEN_SIZE_X,
                    row@.len() == xi,
                    forall|x2: int|
                        0 <= x2 < xi ==> #[trigger] row@[x2] == render_cell(
                            self.grid()[yi * SCREEN_SIZE_X + x2],
                            self.densities()[yi * SCREEN_SIZE_X + x2] as int,
                        ),
                decreases SCREEN_SIZE_X - xi,
            {
                let idx: usize = yi * SCREEN_SIZE_X + xi;
                let c: char = self.screen[idx];
                if c != ' ' {
                    let li = luminance_index(self.obj_buffer[idx]);
                    row.push(luminance_glyph(li));
                } else {
                    row.push(' ');
                }
                xi += 1;
            }
            rows.push(row);
            yi += 1;
        }
        rows
    }

    /// One whole simulation step. A snapshot of every body's position
    /// and mass is taken first; all pairwise forces are accumulated
    /// against that snapshot (a synchronized update); every body is then
    /// integrated; and finally the pre-step snapshot is rasterized into
    /// the frame.
    pub fn tick(&mut self, time: &Time)
        requires
            old(self).wf(),
        ensures
            final(self).wf(),
            final(self).bodies().len() == old(self).bodies().len(),
            forall|k: int|
                0 <= k < old(self).bodies().len() ==> #[trigger] final(self).bodies()[k]
                    == body_tick_spec(
                    forces_after(old(self).bodies()[k], snapshot_spec(old(self).bodies())),
                ),
            final(self).grid() == draw_grid(
                old(self).grid(),
                snapshot_spec(old(self).bodies()),
                old(self).bodies().len() as int,
            ),
            final(self).densities() == draw_dens(
                old(self).densities(),
                snapshot_spec(old(self).bodies()),
                old(self).bodies().len() as int,
            ),
    {
        let ghost snap_s = snapshot_spec(old(self).objs@);
        let n: usize = self.objs.len();

        // Snapshot pass: capture every body's position and mass.
        let mut body_positions: Vec<PosMass> = Vec::new();
        let mut i: usize = 0;
        while i < n
            invariant
                *self == *old(self),
                old(self).wf(),
                n == self.objs@.len(),
                i <= n,
                body_positions@.len() == i,
                forall|k: int|
                    0 <= k < i ==> #[trigger] body_positions@[k] == self.objs@[k].pos_mass(),
            decreases n - i,
        {
            let pos: Pos = self.objs[i].get_position();
            let m: Fx = self.objs[i].get_mass();
            body_positions.push(PosMass { x: pos.x, y: pos.y, mass: m });
            i += 1;
        }
        proof {
            assert(body_positions@ =~= snap_s);
        }

        // Force pass: accumulate every significant, non-coincident pull
        // against the snapshot.
        let mut i: usize = 0;
        while i < n
            invariant
                old(self).wf(),
                n == self.objs@.len(),
                n == old(self).objs@.len(),
                i <= n,
                body_positions@ == snap_s,
                snap_s == snapshot_spec(old(self).objs@),
                self.screen@ == old(self).screen@,
                self.obj_buffer@ == old(self).obj_buffer@,
                forall|k: int|
                    0 <= k < i ==> #[trigger] self.objs@[k] == forces_after(
                        old(self).objs@[k],
                        snap_s,
                    ),
                forall|k: int| i <= k < n ==> #[trigger] self.objs@[k] == old(self).objs@[k],
            decreases n - i,
        {
            let ghost b0 = old(self).objs@[i as int];
            let mut j: usize = 0;
            while j < n
                invariant
                    old(self).wf(),
                    n == self.objs@.len(),
                    n == old(self).objs@.len(),
                    i < n,
                    j <= n,
                    body_positions@ == snap_s,
                    snap_s == snapshot_spec(old(self).objs@),
                    snap_s.len() == n,
                    b0 == old(self).objs@[i as int],
                    self.screen@ == old(self).screen@,
                    self.obj_buffer@ == old(self).obj_buffer@,
                    self.objs@[i as int] == accum_forces(b0, snap_s, j as int),
                    forall|k: int|
                        0 <= k < i ==> #[trigger] self.objs@[k] == forces_after(
                            old(self).objs@[k],
                            snap_s,
                        ),
                    forall|k: int| i < k < n ==> #[trigger] self.objs@[k] == old(self).objs@[k],
                decreases n - j,
            {
                let secondary: PosMass = body_positions[j];
                if secondary.mass.raw >= MASS_SIGNIFICANCE_RAW {
                    let primary: Body = self.objs[i];
                    let dxa = secondary.x.sub(primary.x).abs();
                    let dya = secondary.y.sub(primary.y).abs();
                    let difference_pos = dxa.add(dya);
                    if difference_pos.raw > FX_SCALE {
                        proof {
                            assert(difference_pos.raw as int == manhattan(
                                primary.pos_mass(),
                                secondary,
                            ));
                            lemma_manhattan_applicable(primary.pos_mass(), secondary);
                        }
                        let mut b: Body = primary;
                        b.apply_grav_attraction(secondary);
                        self.objs.set(i, b);
                    }
                }
                j += 1;
            }
            i += 1;
        }

        // Integration pass: one semi-implicit Euler step per body.
        let mut i: usize = 0;
        while i < n
            invariant
                old(self).wf(),
                n == self.objs@.len(),
                n == old(self).objs@.len(),
                i <= n,
                body_positions@ == snap_s,
                snap_s == snapshot_spec(old(self).objs@),
                self.screen@ == old(self).screen@,
                self.obj_buffer@ == old(self).obj_buffer@,
                forall|k: int|
                    0 <= k < i ==> #[trigger] self.objs@[k] == body_tick_spec(
                        forces_after(old(self).objs@[k], snap_s),
                    ),
                forall|k: int|
                    i <= k < n ==> #[trigger] self.objs@[k] == forces_after(
                        old(self).objs@[k],
                        snap_s,
                    ),
            decreases n - i,
        {
            let mut b: Body = self.objs[i];
            proof {
                lemma_accum_preserves(old(self).objs@[i as int], snap_s, snap_s.len() as int);
            }
            b.tick(time);
            self.objs.set(i, b);
            i += 1;
        }

        // Rasterization pass: draw the pre-step snapshot.
        proof {
            assert forall|k: int| 0 <= k < n implies (#[trigger] self.objs@[k]).mass.raw > 0 by {
                lemma_accum_preserves(old(self).objs@[k], snap_s, snap_s.len() as int);
            };
        }
        let mut i: usize = 0;
        while i < n
            invariant
                n == self.objs@.len(),
                i <= n,
                body_positions@ == snap_s,
                snap_s == snapshot_spec(old(self).objs@),
                snap_s.len() == n,
                self.wf(),
                self.screen@ == draw_grid(old(self).screen@, snap_s, i as int),
                self.obj_buffer@ == draw_dens(old(self).obj_buffer@, snap_s, i as int),
                forall|k: int|
                    0 <= k < n ==> #[trigger] self.objs@[k] == body_tick_spec(
                        forces_after(old(self).objs@[k], snap_s),
                    ),
            decreases n - i,
        {
            let p: PosMass = body_positions[i];
            self.draw_position(p.x, p.y, p.mass);
            i += 1;
        }
    }
}

} // verus!
