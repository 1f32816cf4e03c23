use float_guard::{Bits32, Error, Finite, FloatGuard};

fn g32(x: f32) -> FloatGuard<Bits32, Finite> {
    FloatGuard::try_from(Bits32(x.to_bits())).unwrap()
}

fn as_f32(g: FloatGuard<Bits32, Finite>) -> f32 {
    f32::from_bits(g.into_inner().0)
}

#[test]
fn try_from_finite_round_trips_bit_for_bit_32() {
    let values = [0.0f32, -0.0, 1.0, -1.0, 3.5, f32::MAX, f32::MIN, f32::MIN_POSITIVE];
    for &x in values.iter() {
        let r = FloatGuard::<Bits32, Finite>::try_from(Bits32(x.to_bits()));
        let g = r.unwrap();
        assert_eq!(g.into_inner().0, x.to_bits());
    }
}

#[test]
fn try_from_rejects_non_finite_32() {
    for &x in [f32::INFINITY, f32::NEG_INFINITY, f32::NAN].iter() {
        let r = FloatGuard::<Bits32, Finite>::try_from(Bits32(x.to_bits()));
        assert!(matches!(r, Err(Error::NotFinite)));
    }
}

#[test]
fn identity_laws_32() {
    let zero = FloatGuard::<Bits32, Finite>::zero();
    let one = FloatGuard::<Bits32, Finite>::one();
    assert!(zero.is_zero());
    assert!(!one.is_zero());
    assert_eq!(one.add(zero), one);
    assert_eq!(zero.add(one), one);
    assert!(one == Bits32(1.0f32.to_bits()));
    assert!(one.add(one) == Bits32(2.0f32.to_bits()));
}

#[test]
fn arithmetic_32() {
    assert_eq!(as_f32(g32(2.0).mul(g32(2.5))), 5.0);
    assert_eq!(as_f32(g32(5.5).sub(g32(2.25))), 3.25);
    assert_eq!(as_f32(g32(7.0).div(g32(2.0))), 3.5);
    assert_eq!(as_f32(g32(1.25).add(g32(2.5))), 3.75);
}

#[test]
fn overflow_is_not_finite_32() {
    let max = g32(f32::MAX);
    assert!(matches!(max.try_add(max), Err(Error::NotFinite)));
    assert!(matches!(max.try_mul(g32(2.0)), Err(Error::NotFinite)));
    let zero = FloatGuard::<Bits32, Finite>::zero();
    assert!(matches!(g32(1.0).try_div(zero), Err(Error::NotFinite)));
}

#[test]
fn floor_and_abs_32() {
    assert_eq!(as_f32(g32(5.6).floor()), 5.0);
    assert_eq!(as_f32(g32(-0.5).floor()), -1.0);
    assert_eq!(as_f32(g32(-3.25).abs()), 3.25);
}

#[test]
fn ordering_32() {
    assert!(g32(-1.0) < g32(0.0));
    assert_eq!(g32(-1.0).min(g32(0.0)), g32(-1.0));
    assert_eq!(g32(-1.0).max(g32(0.0)), g32(0.0));
    assert_eq!(g32(-0.0), g32(0.0));
}

#[test]
fn stepping_32() {
    let one = FloatGuard::<Bits32, Finite>::one();
    let end = g32(5.6);
    let mut cur = g32(3.0);
    let mut seen: Vec<f32> = Vec::new();
    while cur < end {
        seen.push(as_f32(cur));
        cur = cur.step(&one).unwrap();
    }
    assert_eq!(seen, vec![3.0, 4.0, 5.0]);
}
