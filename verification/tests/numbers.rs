use mywm::bits::{Double, Single};

fn doubles() -> Vec<f64> {
    vec![
        0.0, -0.0, 1.0, -1.0, 0.3, 0.8, 100.0, -100.0, 1920.0, 1e-310, -1e-310,
        f64::INFINITY, f64::NEG_INFINITY, f64::NAN, -f64::NAN, f64::MAX, f64::MIN,
    ]
}

fn singles() -> Vec<f32> {
    vec![
        0.0, -0.0, 1.0, -1.0, 0.05, 0.95, 0.1, 0.9, 0.99, 1e-40, -1e-40,
        f32::INFINITY, f32::NEG_INFINITY, f32::NAN, f32::MAX, f32::MIN,
    ]
}

fn d(v: f64) -> Double {
    Double { bits: v.to_bits() }
}

fn s(v: f32) -> Single {
    Single { bits: v.to_bits() }
}

#[test]
fn doubles_compare_like_floats() {
    for a in doubles() {
        assert_eq!(d(a).is_nan(), a.is_nan());
        for b in doubles() {
            assert_eq!(d(a).lt(d(b)), a < b, "{} < {}", a, b);
            assert_eq!(d(a).le(d(b)), a <= b, "{} <= {}", a, b);
        }
    }
}

#[test]
fn doubles_have_min_and_max_like_floats() {
    for a in doubles() {
        for b in doubles() {
            let least = f64::from_bits(d(a).min(d(b)).bits);
            let most = f64::from_bits(d(a).max(d(b)).bits);
            assert!(least == a.min(b) || (least.is_nan() && a.min(b).is_nan()));
            assert!(most == a.max(b) || (most.is_nan() && a.max(b).is_nan()));
        }
    }
}

#[test]
fn doubles_are_negated_and_clamped_like_floats() {
    for a in doubles() {
        assert_eq!(d(a).neg().bits, (-a).to_bits());
        assert_eq!(d(a).neg().neg().bits, a.to_bits());
        let c = d(a).clamp(d(-1.0), d(1.0)).bits;
        assert_eq!(c, a.clamp(-1.0, 1.0).to_bits());
    }
}

#[test]
fn singles_compare_like_floats() {
    for a in singles() {
        assert_eq!(s(a).is_nan(), a.is_nan());
        for b in singles() {
            assert_eq!(s(a).lt(s(b)), a < b);
            assert_eq!(s(a).le(s(b)), a <= b);
        }
    }
}

#[test]
fn singles_are_clamped_like_floats() {
    for a in singles() {
        let once = s(a).clamp(s(0.1), s(0.9));
        assert_eq!(once.bits, a.clamp(0.1, 0.9).to_bits());
        assert_eq!(once.clamp(s(0.1), s(0.9)), once);
    }
}

#[test]
fn patterns_stand_for_their_numbers() {
    assert_eq!(mywm::bits::ONE64, 1.0f64.to_bits());
    assert_eq!(mywm::bits::ONE32, 1.0f32.to_bits());
    assert_eq!(mywm::bits::ZERO64, 0.0f64.to_bits());
    assert_eq!(mywm::bits::ZERO32, 0.0f32.to_bits());
    assert_eq!(mywm::config::SWIPE_THRESHOLD, 100.0f64.to_bits());
    assert_eq!(mywm::swipe::DEFAULT_SCREEN_WIDTH, 1920.0f64.to_bits());
    assert_eq!(mywm::swipe::GESTURE_COMMIT_THRESHOLD, 0.30f64.to_bits());
    assert_eq!(mywm::swipe::GESTURE_VELOCITY_THRESHOLD, 0.8f64.to_bits());
    assert_eq!(mywm::workspace::HALF32, 0.5f32.to_bits());
    assert_eq!(mywm::workspace::MIN_RATIO, 0.05f32.to_bits());
    assert_eq!(mywm::pointer::MAX_RATIO, 0.95f32.to_bits());
    assert_eq!(mywm::pointer::MIN_SPLIT, 0.1f32.to_bits());
    assert_eq!(mywm::pointer::MAX_SPLIT, 0.9f32.to_bits());
    assert_eq!(mywm::actions::MIN_OPACITY, 0.1f32.to_bits());
    assert_eq!(mywm::actions::OPAQUE, 0.99f32.to_bits());
    assert_eq!(mywm::actions::MIN_ALPHA, 0.35f32.to_bits());
    assert_eq!(mywm::render::FAINT, 0.01f32.to_bits());
}

#[test]
fn animation_alpha_stays_between_zero_and_one() {
    assert_eq!(mywm::animation::animation_alpha(s(0.25)), s(0.25));
    assert_eq!(mywm::animation::animation_alpha(s(1.5)), s(1.0));
    assert_eq!(mywm::animation::animation_alpha(s(-0.5)), s(0.0));
}
