use float_guard::{Bits64, Error, Finite, FloatGuard};
use std::cmp::Ordering;

fn g64(x: f64) -> FloatGuard<Bits64, Finite> {
    FloatGuard::try_from(Bits64(x.to_bits())).unwrap()
}

fn as_f64(g: FloatGuard<Bits64, Finite>) -> f64 {
    f64::from_bits(g.into_inner().0)
}

#[test]
fn try_from_finite_round_trips_bit_for_bit() {
    let values = [
        0.0f64,
        -0.0,
        1.0,
        -1.0,
        3.5,
        -1234.5678,
        f64::MAX,
        f64::MIN,
        f64::MIN_POSITIVE,
        5e-324,
        1e308,
    ];
    for &x in values.iter() {
        let r = FloatGuard::<Bits64, Finite>::try_from(Bits64(x.to_bits()));
        let g = r.unwrap();
        assert_eq!(g.into_inner().0, x.to_bits());
    }
}

#[test]
fn try_from_rejects_non_finite() {
    for &x in [f64::INFINITY, f64::NEG_INFINITY, f64::NAN].iter() {
        let r = FloatGuard::<Bits64, Finite>::try_from(Bits64(x.to_bits()));
        assert!(matches!(r, Err(Error::NotFinite)));
    }
}

#[test]
fn from_unchecked_keeps_the_bits() {
    let g = FloatGuard::<Bits64, Finite>::from_unchecked(Bits64(2.75f64.to_bits()));
    assert_eq!(as_f64(g), 2.75);
}

#[test]
fn from_accepts_finite() {
    let g = FloatGuard::<Bits64, Finite>::from(Bits64((-8.25f64).to_bits()));
    assert_eq!(as_f64(g), -8.25);
}

#[test]
fn identity_laws() {
    let zero = FloatGuard::<Bits64, Finite>::zero();
    let one = FloatGuard::<Bits64, Finite>::one();
    assert!(zero.is_zero());
    assert!(!one.is_zero());
    assert_eq!(one.add(zero), one);
    assert_eq!(zero.add(one), one);
}

#[test]
fn multiplicative_check() {
    let one = FloatGuard::<Bits64, Finite>::one();
    assert!(one == Bits64(1.0f64.to_bits()));
    let two = one.add(one);
    assert!(two.mul(one) == Bits64(2.0f64.to_bits()));
    assert!(one.mul(two) == Bits64(2.0f64.to_bits()));
}

#[test]
fn ordering_scenarios() {
    assert!(g64(-1.0) < g64(0.0));
    assert!(!(g64(-1.0) == Bits64(0.0f64.to_bits())));
    assert_eq!(g64(-1.0).min(g64(0.0)), g64(-1.0));
    assert_eq!(g64(-1.0).max(g64(0.0)), g64(0.0));
}

#[test]
fn cmp_is_total_on_finite_values() {
    assert_eq!(g64(-1.0).cmp(&g64(0.0)), Ordering::Less);
    assert_eq!(g64(2.0).cmp(&g64(2.0)), Ordering::Equal);
    assert_eq!(g64(3.0).cmp(&g64(-7.5)), Ordering::Greater);
    assert_eq!(g64(-0.0).cmp(&g64(0.0)), Ordering::Equal);
}

#[test]
fn the_two_zeros_are_equal() {
    assert_eq!(g64(-0.0), g64(0.0));
    assert!(g64(-0.0) == Bits64(0.0f64.to_bits()));
    assert!(g64(-0.0).is_zero());
}

#[test]
fn comparing_against_a_bare_nan() {
    // The bare operand enters the comparison unvalidated: a NaN compares
    // unequal to, and unordered against, every guard.
    let nan = Bits64(f64::NAN.to_bits());
    assert!(!(g64(1.0) == nan));
    assert!(g64(1.0).partial_cmp(&nan).is_none());
}

#[test]
fn stepping_scenario_a() {
    let one = FloatGuard::<Bits64, Finite>::one();
    let end = g64(5.6);
    let mut cur = g64(3.0);
    let mut seen: Vec<f64> = Vec::new();
    while cur < end {
        seen.push(as_f64(cur));
        cur = cur.step(&one).unwrap();
    }
    assert_eq!(seen, vec![3.0, 4.0, 5.0]);
}

#[test]
fn stepping_scenario_b() {
    let one = FloatGuard::<Bits64, Finite>::one();
    let end = g64(5.6);
    let mut cur = g64(3.6);
    let mut seen: Vec<f64> = Vec::new();
    while cur < end {
        seen.push(as_f64(cur));
        cur = cur.step(&one).unwrap();
    }
    assert_eq!(seen, vec![3.6, 4.6]);
}

#[test]
fn stepping_past_the_finite_range_ends_the_sequence() {
    let max = g64(f64::MAX);
    assert!(max.step(&max).is_none());
}

#[test]
fn add_one_and_sub_one_step_by_the_identity() {
    assert_eq!(as_f64(g64(3.5).add_one()), 4.5);
    assert_eq!(as_f64(g64(3.5).sub_one()), 2.5);
}

#[test]
fn try_add_overflow_is_not_finite() {
    let max = g64(f64::MAX);
    assert!(matches!(max.try_add(max), Err(Error::NotFinite)));
    assert_eq!(as_f64(g64(1.25).try_add(g64(2.5)).unwrap()), 3.75);
}

#[test]
fn try_mul_overflow_is_not_finite() {
    let max = g64(f64::MAX);
    let two = g64(2.0);
    assert!(matches!(max.try_mul(two), Err(Error::NotFinite)));
    assert_eq!(as_f64(g64(1.5).try_mul(g64(4.0)).unwrap()), 6.0);
}

#[test]
fn try_sub_overflow_is_not_finite() {
    let max = g64(f64::MAX);
    let lowest = g64(f64::MIN);
    assert!(matches!(lowest.try_sub(max), Err(Error::NotFinite)));
    assert_eq!(as_f64(g64(5.5).try_sub(g64(2.25)).unwrap()), 3.25);
}

#[test]
fn try_div_by_zero_is_not_finite() {
    let zero = FloatGuard::<Bits64, Finite>::zero();
    assert!(matches!(g64(1.0).try_div(zero), Err(Error::NotFinite)));
    // 0 / 0 gives NaN from the primitive division; it is rejected the same way.
    assert!(matches!(zero.try_div(zero), Err(Error::NotFinite)));
    assert_eq!(as_f64(g64(7.0).try_div(g64(2.0)).unwrap()), 3.5);
}

#[test]
fn bare_value_arithmetic_forms() {
    assert_eq!(as_f64(g64(1.5).try_add_float(Bits64(2.0f64.to_bits())).unwrap()), 3.5);
    assert_eq!(as_f64(g64(1.5).try_sub_float(Bits64(2.0f64.to_bits())).unwrap()), -0.5);
    assert_eq!(as_f64(g64(1.5).try_mul_float(Bits64(2.0f64.to_bits())).unwrap()), 3.0);
    assert_eq!(as_f64(g64(1.5).try_div_float(Bits64(2.0f64.to_bits())).unwrap()), 0.75);
    assert!(matches!(
        g64(1.0).try_add_float(Bits64(f64::INFINITY.to_bits())),
        Err(Error::NotFinite)
    ));
}

#[test]
fn floor_rounds_toward_negative_infinity() {
    assert_eq!(as_f64(g64(5.6).floor()), 5.0);
    assert_eq!(as_f64(g64(-0.5).floor()), -1.0);
    assert_eq!(as_f64(g64(3.0).floor()), 3.0);
}

#[test]
fn abs_clears_the_sign() {
    assert_eq!(as_f64(g64(-3.25).abs()), 3.25);
    assert_eq!(as_f64(g64(3.25).abs()), 3.25);
    assert_eq!(g64(-0.0).abs().into_inner().0, 0.0f64.to_bits());
}

#[test]
fn is_negative_reads_the_sign_bit() {
    assert!(g64(-1.0).is_negative());
    assert!(!g64(1.0).is_negative());
    assert!(g64(-0.0).is_negative());
    assert!(!g64(0.0).is_negative());
}

#[test]
fn error_describes_itself() {
    assert_eq!(Error::NotFinite.as_str(), "a non-finite value was provided");
}
