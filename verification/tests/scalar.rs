use air_hockey::scalar::{clamp, le, lt, max, min, nan, neg};

fn samples() -> Vec<f32> {
    let mut v = vec![
        0.0,
        -0.0,
        1.0,
        -1.0,
        0.05,
        12.0,
        18.0,
        382.0,
        788.0,
        800.0,
        -160.0,
        f32::MIN_POSITIVE,
        f32::MAX,
        f32::MIN,
        f32::INFINITY,
        f32::NEG_INFINITY,
        f32::NAN,
        -f32::NAN,
        f32::from_bits(1),
        f32::from_bits(0x007f_ffff),
        f32::from_bits(0x8000_0001),
    ];
    for n in [12.0f32, 382.0, 788.0] {
        v.push(f32::from_bits(n.to_bits() - 1));
        v.push(f32::from_bits(n.to_bits() + 1));
    }
    v
}

#[test]
fn order_is_that_of_floats() {
    for a in samples() {
        for b in samples() {
            assert_eq!(lt(a.to_bits(), b.to_bits()), a < b, "{a} < {b}");
            assert_eq!(le(a.to_bits(), b.to_bits()), a <= b, "{a} <= {b}");
        }
    }
}

#[test]
fn negation_is_that_of_floats() {
    for a in samples() {
        assert_eq!(neg(a.to_bits()), (-a).to_bits());
        assert_eq!(neg(neg(a.to_bits())), a.to_bits());
        assert_eq!(nan(a.to_bits()), a.is_nan());
    }
}

#[test]
fn extremes_are_those_of_floats() {
    for a in samples() {
        for b in samples() {
            let low = f32::from_bits(min(a.to_bits(), b.to_bits()));
            let high = f32::from_bits(max(a.to_bits(), b.to_bits()));
            if a.is_nan() && b.is_nan() {
                assert!(low.is_nan() && high.is_nan());
            } else {
                assert_eq!(low, a.min(b));
                assert_eq!(high, a.max(b));
            }
        }
    }
}

#[test]
fn clamp_is_min_then_max() {
    for v in samples() {
        for (a, b) in [(18.0f32, 382.0f32), (418.0, 782.0), (18.0, 462.0)] {
            let got = clamp(v.to_bits(), a.to_bits(), b.to_bits());
            assert_eq!(got, v.min(b).max(a).to_bits());
            assert_eq!(clamp(got, a.to_bits(), b.to_bits()), got);
        }
    }
    for v in samples() {
        for a in samples() {
            for b in samples() {
                let once = clamp(v.to_bits(), a.to_bits(), b.to_bits());
                assert_eq!(clamp(once, a.to_bits(), b.to_bits()), once);
            }
        }
    }
    assert_eq!(clamp(100.0f32.to_bits(), 18.0f32.to_bits(), 382.0f32.to_bits()), 100.0f32.to_bits());
    assert_eq!(clamp(f32::NAN.to_bits(), 18.0f32.to_bits(), 382.0f32.to_bits()), 382.0f32.to_bits());
}
