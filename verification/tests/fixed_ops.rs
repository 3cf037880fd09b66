use galaxy_sim::fixed::Fx;
use galaxy_sim::fixed::FX_SCALE;

#[test]
fn from_int_scales() {
    assert_eq!(Fx::from_int(1).raw, FX_SCALE);
    assert_eq!(Fx::from_int(-3).raw, -3 * FX_SCALE);
    assert_eq!(Fx::from_int(0).raw, 0);
}

#[test]
fn add_and_sub_are_exact() {
    let a = Fx::from_int(5);
    let b = Fx::from_int(2);
    assert_eq!(a.add(b).raw, 7 * FX_SCALE);
    assert_eq!(a.sub(b).raw, 3 * FX_SCALE);
    assert_eq!(b.sub(a).raw, -3 * FX_SCALE);
}

#[test]
fn mul_is_exact_on_representables() {
    let a = Fx::from_int(2);
    let b = Fx::from_int(3);
    assert_eq!(a.mul(b).raw, 6 * FX_SCALE);
    // 0.5 * 0.5 = 0.25
    let half = Fx::from_raw(FX_SCALE / 2);
    assert_eq!(half.mul(half).raw, FX_SCALE / 4);
}

#[test]
fn div_truncates_toward_zero() {
    let one = Fx::from_int(1);
    let three = Fx::from_int(3);
    assert_eq!(one.div(three).raw, 20000);
    assert_eq!(one.neg().div(three).raw, -20000);
}

#[test]
fn sqrt_of_perfect_square() {
    assert_eq!(Fx::from_int(4).sqrt().raw, 2 * FX_SCALE);
    assert_eq!(Fx::from_int(0).sqrt().raw, 0);
    // sqrt(2) floors to 84852/60000
    assert_eq!(Fx::from_int(2).sqrt().raw, 84852);
}

#[test]
fn abs_flips_negatives() {
    assert_eq!(Fx::from_int(-7).abs().raw, 7 * FX_SCALE);
    assert_eq!(Fx::from_int(7).abs().raw, 7 * FX_SCALE);
}

#[test]
fn addition_saturates_at_the_symmetric_bound() {
    let top = Fx::from_raw(i64::MAX);
    assert_eq!(top.add(Fx::from_int(1)).raw, i64::MAX);
    let bottom = Fx::from_raw(-i64::MAX);
    assert_eq!(bottom.sub(Fx::from_int(1)).raw, -i64::MAX);
    assert_eq!(top.neg().raw, -i64::MAX);
}
