use simple_fps::numeric::{clamp_i64, cos_milli, div_euclid_i64, rem_euclid_i64, sin_milli};

#[test]
fn sine_at_cardinal_angles() {
    assert_eq!(sin_milli(0), 0);
    assert_eq!(sin_milli(90000), 1000);
    assert_eq!(sin_milli(180000), 0);
    assert_eq!(sin_milli(270000), -1000);
    assert_eq!(sin_milli(360000), 0);
    assert_eq!(sin_milli(-90000), -1000);
}

#[test]
fn sine_at_thirty_degrees_is_exact() {
    // The rational approximation is exact at 30 and 150 degrees.
    assert_eq!(sin_milli(30000), 500);
    assert_eq!(sin_milli(150000), 500);
    assert_eq!(sin_milli(-30000), -500);
}

#[test]
fn sine_stays_in_range() {
    let mut a: i64 = -400000;
    while a <= 400000 {
        let s = sin_milli(a);
        assert!(-1000 <= s && s <= 1000);
        a += 1375;
    }
}

#[test]
fn cosine_at_cardinal_angles() {
    assert_eq!(cos_milli(0), 1000);
    assert_eq!(cos_milli(90000), 0);
    assert_eq!(cos_milli(180000), -1000);
    assert_eq!(cos_milli(-90000), 0);
}

#[test]
fn euclidean_division_rounds_down() {
    assert_eq!(div_euclid_i64(7, 2), 3);
    assert_eq!(div_euclid_i64(-7, 2), -4);
    assert_eq!(div_euclid_i64(-6, 2), -3);
    assert_eq!(rem_euclid_i64(-7, 2), 1);
    assert_eq!(rem_euclid_i64(-7, 360000), 359993);
}

#[test]
fn clamp_holds_the_bounds() {
    assert_eq!(clamp_i64(5, 0, 10), 5);
    assert_eq!(clamp_i64(-5, 0, 10), 0);
    assert_eq!(clamp_i64(15, 0, 10), 10);
}
