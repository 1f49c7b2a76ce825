use mandelbrot::evaluate;

fn bits(x: f64) -> u64 {
    x.to_bits()
}

/// Reference escape-time loop in hardware floating point, for cross-checks.
fn hw_evaluate(cx: f64, cy: f64, max_iter: u32) -> u32 {
    let mut x = 0.0f64;
    let mut y = 0.0f64;
    for i in 0..max_iter {
        let xn = x * x - y * y + cx;
        let yn = 2.0 * x * y + cy;
        if xn * xn + yn * yn > 4.0 {
            return i + 1;
        }
        x = xn;
        y = yn;
    }
    max_iter
}

#[test]
fn origin_always_reaches_cap() {
    for m in [0u32, 1, 2, 10, 50, 1000] {
        assert_eq!(evaluate(bits(0.0), bits(0.0), m), m);
    }
}

#[test]
fn golden_point_two_escapes_at_two() {
    // z1 = 2.0 has squared modulus exactly 4.0, which is not > 4.0;
    // z2 = 6.0 escapes.
    assert_eq!(evaluate(bits(2.0), bits(0.0), 10), 2);
    assert_eq!(evaluate(bits(2.0), bits(0.0), 2), 2);
    assert_eq!(evaluate(bits(2.0), bits(0.0), 1), 1);
}

#[test]
fn golden_point_one_escapes_at_three() {
    // Orbit of c = 1: 0, 1, 2, 5; 5*5 = 25 > 4.
    assert_eq!(evaluate(bits(1.0), bits(0.0), 100), 3);
}

#[test]
fn golden_member_minus_one_never_escapes() {
    // c = -1 cycles between -1 and 0.
    assert_eq!(evaluate(bits(-1.0), bits(0.0), 64), 64);
}

#[test]
fn zero_budget_returns_zero() {
    for (cx, cy) in [(0.0, 0.0), (2.0, 0.0), (-1.5, 0.75), (1e300, -1e300), (f64::NAN, 3.0)] {
        assert_eq!(evaluate(bits(cx), bits(cy), 0), 0);
    }
}

#[test]
fn nan_point_never_escapes() {
    assert_eq!(evaluate(bits(f64::NAN), bits(0.0), 25), 25);
    assert_eq!(evaluate(bits(0.0), bits(f64::NAN), 25), 25);
}

#[test]
fn infinite_point_escapes_immediately() {
    assert_eq!(evaluate(bits(f64::INFINITY), bits(0.0), 25), 1);
}

#[test]
fn cap_changes_only_clip_the_count() {
    // c = 2 escapes at iteration 2: raising the cap never changes the count,
    // lowering it below 2 caps the count at the cap itself.
    for m in 2..12u32 {
        assert_eq!(evaluate(bits(2.0), bits(0.0), m), 2);
    }
    assert_eq!(evaluate(bits(2.0), bits(0.0), 1), 1);
    assert_eq!(evaluate(bits(2.0), bits(0.0), 0), 0);
    // The same for a point with a later escape.
    let k = evaluate(bits(0.26), bits(0.0), 1000);
    assert!(k < 1000);
    for m in [k, k + 1, k + 50, 1000] {
        assert_eq!(evaluate(bits(0.26), bits(0.0), m), k);
    }
    for m in 0..k {
        assert_eq!(evaluate(bits(0.26), bits(0.0), m), m);
    }
}

#[test]
fn matches_hardware_arithmetic() {
    // The library's software binary64 arithmetic must agree bit for bit with
    // the hardware orbit, across escaping, non-escaping and fractional points.
    let points = [
        (0.0, 0.0),
        (2.0, 0.0),
        (-0.5, 0.5),
        (0.3, -0.61),
        (-1.7548776662466927, 0.0),
        (0.25, 0.0),
        (-0.1011, 0.9563),
        (1e-3, -2.5),
    ];
    for (cx, cy) in points {
        assert_eq!(evaluate(bits(cx), bits(cy), 500), hw_evaluate(cx, cy, 500));
    }
}
