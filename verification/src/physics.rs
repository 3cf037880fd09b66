//! Bodies, the pairwise gravity solver and the semi-implicit Euler
//! integrator.
//!
//! Every mutation is pinned down by spec functions over the fixed-point
//! raw values: `pair_force_x` / `pair_force_y` give the force one body
//! adds to another's accumulator, and `body_tick_spec` gives the whole
//! state after one integration step.

use crate::fixed::clip;
use crate::fixed::fadd;
use crate::fixed::fdiv;
use crate::fixed::fmul;
use crate::fixed::fsqrt;
use crate::fixed::fsub;
use crate::fixed::lemma_fdiv_neg;
use crate::fixed::lemma_fmul_neg;
use crate::fixed::lemma_fmul_self_nonneg;
use crate::fixed::lemma_fmul_square_neg;
use crate::fixed::lemma_sqrt_floor_at_least;
use crate::fixed::lemma_tdiv_ordered;
use crate::fixed::fabs;
use crate::fixed::tdiv;
use crate::fixed::Fx;
use crate::fixed::FX_SCALE;
use crate::fixed::RAW_BOUND;
use crate::screen::Time;
use crate::screen::DELTA_TIME_RAW;
use vstd::prelude::*;

verus! {

/// Gravitational constant, raw fixed-point units (0.02).
pub const G_CONSTANT_RAW: i64 = 1200;

/// The gravitational constant as a scalar.
pub fn g_constant() -> (r: Fx)
    ensures
        r.raw == G_CONSTANT_RAW,
{
    Fx::from_raw(G_CONSTANT_RAW)
}

/// A body's position and mass, as captured in a per-step snapshot.
#[derive(Clone, Copy, PartialEq, Eq, Structural, Debug)]
pub struct PosMass {
    pub x: Fx,
    pub y: Fx,
    pub mass: Fx,
}

/// A bare position.
#[derive(Clone, Copy, PartialEq, Eq, Structural, Debug)]
pub struct Pos {
    pub x: Fx,
    pub y: Fx,
}

/// A per-step force accumulator, in newton-like simulation units.
#[allow(non_snake_case)]
#[derive(Clone, Copy, PartialEq, Eq, Structural, Debug)]
pub struct Force {
    pub N_x: Fx,
    pub N_y: Fx,
}

/// A point mass: position, velocity, mass and the force accumulated on
/// it during the current step.
#[derive(Clone, Copy, PartialEq, Eq, Structural, Debug)]
pub struct Body {
    pub x: Fx,
    pub y: Fx,
    pub vx: Fx,
    pub vy: Fx,
    pub mass: Fx,
    pub force: Force,
}

/// Raw x-displacement from `p` toward `o`.
pub open spec fn grav_dx(p: PosMass, o: PosMass) -> int {
    fsub(o.x.raw as int, p.x.raw as int)
}

/// Raw y-displacement from `p` toward `o`.
pub open spec fn grav_dy(p: PosMass, o: PosMass) -> int {
    fsub(o.y.raw as int, p.y.raw as int)
}

/// Raw Euclidean distance between `p` and `o`.
pub open spec fn grav_size(p: PosMass, o: PosMass) -> int {
    fsqrt(fadd(fmul(grav_dx(p, o), grav_dx(p, o)), fmul(grav_dy(p, o), grav_dy(p, o))))
}

/// The force computation divides by the distance and by its square;
/// both must come out positive for the pair to be attractable.
pub open spec fn pair_applicable(p: PosMass, o: PosMass) -> bool {
    grav_size(p, o) > 0 && fmul(grav_size(p, o), grav_size(p, o)) > 0
}

/// Raw magnitude of the gravitational force of `o` on `p`:
/// `G * m_p * m_o / r^2`.
pub open spec fn pair_mag(p: PosMass, o: PosMass) -> int {
    fdiv(
        fmul(fmul(G_CONSTANT_RAW as int, p.mass.raw as int), o.mass.raw as int),
        fmul(grav_size(p, o), grav_size(p, o)),
    )
}

/// Raw x-component of the gravitational force of `o` on `p`.
pub open spec fn pair_force_x(p: PosMass, o: PosMass) -> int {
    fmul(pair_mag(p, o), fdiv(grav_dx(p, o), grav_size(p, o)))
}

/// Raw y-component of the gravitational force of `o` on `p`.
pub open spec fn pair_force_y(p: PosMass, o: PosMass) -> int {
    fmul(pair_mag(p, o), fdiv(grav_dy(p, o), grav_size(p, o)))
}

impl Force {
    /// An empty accumulator.
    pub fn new() -> (r: Self)
        ensures
            r.N_x.raw == 0,
            r.N_y.raw == 0,
    {
        Force { N_x: Fx::zero(), N_y: Fx::zero() }
    }

    /// Zero the accumulator for the next step.
    pub fn reset(&mut self)
        ensures
            final(self).N_x.raw == 0,
            final(self).N_y.raw == 0,
    {
        self.N_x = Fx::zero();
        self.N_y = Fx::zero();
    }

    /// The velocity change this force produces on a body of mass `mass`
    /// over one time delta: `(N / mass) * dt`, per component.
    pub fn to_velocity(&self, mass: Fx, time: &Time) -> (r: (Fx, Fx))
        requires
            mass.raw > 0,
        ensures
            r.0.raw as int == fmul(fdiv(self.N_x.raw as int, mass.raw as int), DELTA_TIME_RAW as int),
            r.1.raw as int == fmul(fdiv(self.N_y.raw as int, mass.raw as int), DELTA_TIME_RAW as int),
    {
        let dt = time.delta_time();
        let x = self.N_x.div(mass).mul(dt);
        let y = self.N_y.div(mass).mul(dt);
        (x, y)
    }
}

/// The state of a body after one integration step: velocity is updated
/// from the accumulated force first, the new velocity moves the
/// position, and the accumulator is cleared.
pub open spec fn body_tick_spec(b: Body) -> Body {
    let dvx = fmul(fdiv(b.force.N_x.raw as int, b.mass.raw as int), DELTA_TIME_RAW as int);
    let dvy = fmul(fdiv(b.force.N_y.raw as int, b.mass.raw as int), DELTA_TIME_RAW as int);
    let vx2 = fadd(b.vx.raw as int, dvx);
    let vy2 = fadd(b.vy.raw as int, dvy);
    let x2 = fadd(b.x.raw as int, fmul(vx2, DELTA_TIME_RAW as int));
    let y2 = fadd(b.y.raw as int, fmul(vy2, DELTA_TIME_RAW as int));
    Body {
        x: Fx { raw: x2 as i64 },
        y: Fx { raw: y2 as i64 },
        vx: Fx { raw: vx2 as i64 },
        vy: Fx { raw: vy2 as i64 },
        mass: b.mass,
        force: Force { N_x: Fx { raw: 0 }, N_y: Fx { raw: 0 } },
    }
}

/// The state of a body after the force of `o` has been accumulated:
/// only the force accumulator changes.
pub open spec fn grav_apply_spec(b: Body, o: PosMass) -> Body {
    Body {
        force: Force {
            N_x: Fx { raw: fadd(b.force.N_x.raw as int, pair_force_x(b.pos_mass(), o)) as i64 },
            N_y: Fx { raw: fadd(b.force.N_y.raw as int, pair_force_y(b.pos_mass(), o)) as i64 },
        },
        ..b
    }
}

impl Body {
    /// The snapshot entry for this body.
    pub open spec fn pos_mass(self) -> PosMass {
        PosMass { x: self.x, y: self.y, mass: self.mass }
    }

    /// The current position.
    pub fn get_position(&self) -> (r: Pos)
        ensures
            r.x == self.x,
            r.y == self.y,
    {
        Pos { x: self.x, y: self.y }
    }

    /// Overwrite the position.
    pub fn set_position(&mut self, x: Fx, y: Fx)
        ensures
            *final(self) == (Body { x, y, ..*old(self) }),
    {
        self.x = x;
        self.y = y;
    }

    /// Translate the position by `(x, y)`.
    pub fn add_position(&mut self, x: Fx, y: Fx)
        ensures
            final(self).x.raw as int == fadd(old(self).x.raw as int, x.raw as int),
            final(self).y.raw as int == fadd(old(self).y.raw as int, y.raw as int),
            final(self).vx == old(self).vx,
            final(self).vy == old(self).vy,
            final(self).mass == old(self).mass,
            final(self).force == old(self).force,
    {
        self.x = self.x.add(x);
        self.y = self.y.add(y);
    }

    /// Change the velocity by `(vx, vy)`.
    pub fn add_velocity(&mut self, vx: Fx, vy: Fx)
        ensures
            final(self).vx.raw as int == fadd(old(self).vx.raw as int, vx.raw as int),
            final(self).vy.raw as int == fadd(old(self).vy.raw as int, vy.raw as int),
            final(self).x == old(self).x,
            final(self).y == old(self).y,
            final(self).mass == old(self).mass,
            final(self).force == old(self).force,
    {
        self.vx = self.vx.add(vx);
        self.vy = self.vy.add(vy);
    }

    /// One semi-implicit Euler step: velocity first, then position with
    /// the new velocity, then the force accumulator is cleared.
    pub fn tick(&mut self, time: &Time)
        requires
            old(self).mass.raw > 0,
        ensures
            *final(self) == body_tick_spec(*old(self)),
    {
        let mass = self.mass;
        let velocity_diff = self.force.to_velocity(mass, time);
        self.add_velocity(velocity_diff.0, velocity_diff.1);

        let dt = time.delta_time();
        let position_diff = (self.vx.mul(dt), self.vy.mul(dt));
        self.add_position(position_diff.0, position_diff.1);

        self.force.reset();
    }

    /// Mutable access to the force accumulator.
    pub fn get_force(&mut self) -> (r: &mut Force)
        ensures
            *r == old(self).force,
            *final(self) == (Body { force: *final(r), ..*old(self) }),
    {
        &mut self.force
    }

    /// The body's mass.
    pub fn get_mass(&self) -> (r: Fx)
        ensures
            r == self.mass,
    {
        self.mass
    }

    /// Accumulate the gravitational pull of the snapshot entry `other_pos`
    /// into this body's force accumulator. Position, velocity and mass
    /// are untouched.
    pub fn apply_grav_attraction(&mut self, other_pos: PosMass)
        requires
            pair_applicable(old(self).pos_mass(), other_pos),
        ensures
            *final(self) == grav_apply_spec(*old(self), other_pos),
    {
        let other_mass = other_pos.mass;

        let x_hat = other_pos.x.sub(self.x);
        let y_hat = other_pos.y.sub(self.y);

        let xx = x_hat.mul(x_hat);
        let yy = y_hat.mul(y_hat);
        proof {
            lemma_fmul_self_nonneg(x_hat.raw as int);
            lemma_fmul_self_nonneg(y_hat.raw as int);
        }
        let size = xx.add(yy).sqrt();

        let x_dir = x_hat.div(size);
        let y_dir = y_hat.div(size);

        let size_sq = size.mul(size);
        let force = g_constant().mul(self.mass).mul(other_mass).div(size_sq);
        self.force.N_x = self.force.N_x.add(force.mul(x_dir));
        self.force.N_y = self.force.N_y.add(force.mul(y_dir));
    }
}

/// Manhattan distance between two snapshot positions, as the solver's
/// proximity filter computes it: `|dx| + |dy|`, saturating.
pub open spec fn manhattan(p: PosMass, o: PosMass) -> int {
    fadd(
        fabs(fsub(o.x.raw as int, p.x.raw as int)),
        fabs(fsub(o.y.raw as int, p.y.raw as int)),
    )
}

/// The proximity filter guarantees the pair is attractable: a Manhattan
/// distance above one unit keeps the computed distance, and its square,
/// strictly positive, so the force computation never divides by zero.
pub proof fn lemma_manhattan_applicable(p: PosMass, o: PosMass)
    requires
        manhattan(p, o) > FX_SCALE as int,
    ensures
        pair_applicable(p, o),
        grav_size(p, o) >= 30000,
{
    let dx = grav_dx(p, o);
    let dy = grav_dy(p, o);
    let adx = fabs(dx);
    let ady = fabs(dy);
    assert(adx + ady > 60000);
    let d = if adx >= ady { dx } else { dy };
    let ad = if adx >= ady { adx } else { ady };
    assert(ad >= 30001);
    assert(ad == if d < 0 { -d } else { d });
    assert(d * d == ad * ad) by (nonlinear_arith)
        requires
            ad == if d < 0 { -d } else { d },
    ;
    assert(d * d >= (30001 * 30001) as int) by (nonlinear_arith)
        requires
            ad >= 30001,
            d * d == ad * ad,
    ;
    lemma_tdiv_ordered((30001 * 30001) as int, d * d, FX_SCALE as int);
    assert(tdiv((30001 * 30001) as int, 60000) == 15001);
    lemma_fmul_self_nonneg(dx);
    lemma_fmul_self_nonneg(dy);
    let xx = fmul(dx, dx);
    let yy = fmul(dy, dy);
    assert(fmul(d, d) >= 15001);
    let sum = fadd(xx, yy);
    assert(sum >= 15001);
    assert(sum * (FX_SCALE as int) >= 15001 * 60000) by (nonlinear_arith)
        requires
            sum >= 15001,
            FX_SCALE as int == 60000,
    ;
    lemma_sqrt_floor_at_least(sum * (FX_SCALE as int), 30000);
    let s = grav_size(p, o);
    assert(s >= 30000);
    assert(s * s >= (30000 * 30000) as int) by (nonlinear_arith)
        requires
            s >= 30000,
    ;
    lemma_tdiv_ordered((30000 * 30000) as int, s * s, FX_SCALE as int);
    assert(tdiv((30000 * 30000) as int, 60000) == 15000);
}

/// Newton's third law for the fixed-point force computation: two bodies
/// of equal mass pull on each other with forces of equal magnitude and
/// exactly opposite components.
pub proof fn lemma_newton_third_law(p: PosMass, q: PosMass)
    requires
        p.mass == q.mass,
        pair_applicable(p, q),
    ensures
        pair_applicable(q, p),
        pair_mag(q, p) == pair_mag(p, q),
        pair_force_x(q, p) == -pair_force_x(p, q),
        pair_force_y(q, p) == -pair_force_y(p, q),
{
    let dx = grav_dx(p, q);
    let dy = grav_dy(p, q);
    assert(grav_dx(q, p) == -dx);
    assert(grav_dy(q, p) == -dy);
    lemma_fmul_square_neg(dx);
    lemma_fmul_square_neg(dy);
    assert(grav_size(q, p) == grav_size(p, q));
    let s = grav_size(p, q);
    lemma_fdiv_neg(dx, s);
    lemma_fdiv_neg(dy, s);
    lemma_fmul_neg(pair_mag(p, q), fdiv(dx, s));
    lemma_fmul_neg(pair_mag(p, q), fdiv(dy, s));
}

/// The body after `n` integration steps with whatever forces its
/// accumulator holds at each step (here used with a zero accumulator).
pub open spec fn iterate_ticks(b: Body, n: nat) -> Body
    decreases n,
{
    if n == 0 {
        b
    } else {
        body_tick_spec(iterate_ticks(b, (n - 1) as nat))
    }
}

/// The integrator is linear under zero force: if the accumulator is
/// zero, `n` steps leave velocity, mass and accumulator unchanged and
/// advance the position by exactly `n` times the per-step increment
/// `velocity * delta` -- as long as the path stays inside the
/// representable range, so no step saturates.
pub proof fn lemma_zero_force_linear_motion(b: Body, n: nat)
    requires
        b.force.N_x.raw == 0,
        b.force.N_y.raw == 0,
        b.mass.raw > 0,
        b.x.wf(),
        b.y.wf(),
        b.vx.wf(),
        b.vy.wf(),
        -(RAW_BOUND as int) <= b.x.raw + n * fmul(b.vx.raw as int, DELTA_TIME_RAW as int)
            <= RAW_BOUND as int,
        -(RAW_BOUND as int) <= b.y.raw + n * fmul(b.vy.raw as int, DELTA_TIME_RAW as int)
            <= RAW_BOUND as int,
    ensures
        iterate_ticks(b, n).x.raw as int == b.x.raw + n * fmul(
            b.vx.raw as int,
            DELTA_TIME_RAW as int,
        ),
        iterate_ticks(b, n).y.raw as int == b.y.raw + n * fmul(
            b.vy.raw as int,
            DELTA_TIME_RAW as int,
        ),
        iterate_ticks(b, n).vx == b.vx,
        iterate_ticks(b, n).vy == b.vy,
        iterate_ticks(b, n).mass == b.mass,
        iterate_ticks(b, n).force.N_x.raw == 0,
        iterate_ticks(b, n).force.N_y.raw == 0,
    decreases n,
{
    let sx = fmul(b.vx.raw as int, DELTA_TIME_RAW as int);
    let sy = fmul(b.vy.raw as int, DELTA_TIME_RAW as int);
    if n == 0 {
    } else {
        let m = (n - 1) as nat;
        assert(if sx >= 0 {
            0 <= m * sx <= n * sx
        } else {
            n * sx <= m * sx <= 0
        }) by (nonlinear_arith)
            requires
                m == n - 1,
                n >= 1,
        ;
        assert(if sy >= 0 {
            0 <= m * sy <= n * sy
        } else {
            n * sy <= m * sy <= 0
        }) by (nonlinear_arith)
            requires
                m == n - 1,
                n >= 1,
        ;
        lemma_zero_force_linear_motion(b, m);
        let prev = iterate_ticks(b, m);
        vstd::arithmetic::div_mod::lemma_div_basics(b.mass.raw as int);
        vstd::arithmetic::div_mod::lemma_div_basics(FX_SCALE as int);
        assert(m * sx + sx == n * sx) by (nonlinear_arith)
            requires
                m == n - 1,
        ;
        assert(m * sy + sy == n * sy) by (nonlinear_arith)
            requires
                m == n - 1,
        ;
        assert(fdiv(0, b.mass.raw as int) == 0);
        assert(fmul(0, DELTA_TIME_RAW as int) == 0);
        assert(body_tick_spec(prev).vx == b.vx);
        assert(body_tick_spec(prev).vy == b.vy);
        assert(fmul(prev.vx.raw as int, DELTA_TIME_RAW as int) == sx);
        assert(fmul(prev.vy.raw as int, DELTA_TIME_RAW as int) == sy);
        assert(body_tick_spec(prev).x.raw as int == clip(b.x.raw + m * sx + sx));
        assert(body_tick_spec(prev).y.raw as int == clip(b.y.raw + m * sy + sy));
        assert(clip(b.x.raw + n * sx) == b.x.raw + n * sx);
        assert(clip(b.y.raw + n * sy) == b.y.raw + n * sy);
        assert(iterate_ticks(b, n) == body_tick_spec(prev));
    }
}

/// Accumulating the pulls of two other bodies commutes: as long as the
/// running totals do not saturate, applying `o1` then `o2` leaves the
/// same state as applying `o2` then `o1`, and the final accumulator is
/// the plain sum of the old accumulator and both pairwise forces.
pub proof fn lemma_grav_accumulation_commutes(b: Body, o1: PosMass, o2: PosMass)
    requires
        clip(b.force.N_x.raw + pair_force_x(b.pos_mass(), o1)) == b.force.N_x.raw + pair_force_x(b.pos_mass(), o1),
        clip(b.force.N_y.raw + pair_force_y(b.pos_mass(), o1)) == b.force.N_y.raw + pair_force_y(b.pos_mass(), o1),
        clip(b.force.N_x.raw + pair_force_x(b.pos_mass(), o2)) == b.force.N_x.raw + pair_force_x(b.pos_mass(), o2),
        clip(b.force.N_y.raw + pair_force_y(b.pos_mass(), o2)) == b.force.N_y.raw + pair_force_y(b.pos_mass(), o2),
        clip(b.force.N_x.raw + pair_force_x(b.pos_mass(), o1) + pair_force_x(b.pos_mass(), o2))
            == b.force.N_x.raw + pair_force_x(b.pos_mass(), o1) + pair_force_x(b.pos_mass(), o2),
        clip(b.force.N_y.raw + pair_force_y(b.pos_mass(), o1) + pair_force_y(b.pos_mass(), o2))
            == b.force.N_y.raw + pair_force_y(b.pos_mass(), o1) + pair_force_y(b.pos_mass(), o2),
    ensures
        grav_apply_spec(grav_apply_spec(b, o1), o2) == grav_apply_spec(grav_apply_spec(b, o2), o1),
        grav_apply_spec(grav_apply_spec(b, o1), o2).force.N_x.raw as int
            == b.force.N_x.raw + pair_force_x(b.pos_mass(), o1) + pair_force_x(b.pos_mass(), o2),
        grav_apply_spec(grav_apply_spec(b, o1), o2).force.N_y.raw as int
            == b.force.N_y.raw + pair_force_y(b.pos_mass(), o1) + pair_force_y(b.pos_mass(), o2),
{
    assert(grav_apply_spec(b, o1).pos_mass() == b.pos_mass());
    assert(grav_apply_spec(b, o2).pos_mass() == b.pos_mass());
}

} // verus!
