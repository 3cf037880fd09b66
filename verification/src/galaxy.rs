//! Seeding helper: the speed a body needs for a circular orbit.
//!
//! Building whole initial configurations (spirals of randomly placed
//! stars) is the caller's business; the library only supplies the
//! orbit-speed formula those builders use.

use crate::fixed::fdiv;
use crate::fixed::fmul;
use crate::fixed::fsqrt;
use crate::fixed::lemma_fdiv_nonneg;
use crate::fixed::lemma_fmul_nonneg;
use crate::fixed::Fx;
use crate::physics::g_constant;
use crate::physics::G_CONSTANT_RAW;
use vstd::prelude::*;

verus! {

/// The speed of a circular orbit of radius `radius` around a large
/// central mass: `sqrt(G * center_mass / radius)`.
pub fn get_orbit_speed(radius: Fx, center_mass: Fx) -> (r: Fx)
    requires
        radius.raw > 0,
        center_mass.raw >= 0,
    ensures
        r.raw as int == fsqrt(
            fdiv(fmul(G_CONSTANT_RAW as int, center_mass.raw as int), radius.raw as int),
        ),
        r.raw >= 0,
{
    let gm = g_constant().mul(center_mass);
    proof {
        lemma_fmul_nonneg(G_CONSTANT_RAW as int, center_mass.raw as int);
    }
    let v2 = gm.div(radius);
    proof {
        lemma_fdiv_nonneg(gm.raw as int, radius.raw as int);
    }
    v2.sqrt()
}

} // verus!
