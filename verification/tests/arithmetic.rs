use raycaster::fixed::clamp;
use raycaster::fixed::dist;
use raycaster::fixed::floor_div;
use raycaster::fixed::floor_mod;
use raycaster::fixed::isqrt;
use raycaster::fixed::COORD_LIMIT;
use raycaster::trig::turned;
use raycaster::trig::wrap_angle;
use raycaster::trig::TrigTable;
use raycaster::trig::FULL_TURN;

fn quarter_wave() -> Vec<i32> {
    let mut quarter = Vec::new();
    for i in 0..=900 {
        let degrees = i as f64 / 10.0;
        quarter.push((degrees.to_radians().sin() * 65536.0).round() as i32);
    }
    quarter
}

#[test]
fn floor_div_rounds_down() {
    assert_eq!(floor_div(7, 2), 3);
    assert_eq!(floor_div(-7, 2), -4);
    assert_eq!(floor_div(-8, 2), -4);
    assert_eq!(floor_div(-1, 16384), -1);
    assert_eq!(floor_div(0, 5), 0);
    assert_eq!(floor_div(i64::MIN, 1), i64::MIN);
    assert_eq!(floor_div(i64::MIN, i64::MAX), -2);
    assert_eq!(floor_div(i64::MAX, i64::MAX), 1);
}

#[test]
fn floor_mod_is_never_negative() {
    assert_eq!(floor_mod(7, 3), 1);
    assert_eq!(floor_mod(-7, 3), 2);
    assert_eq!(floor_mod(-3600, 3600), 0);
    assert_eq!(floor_mod(-1, 3600), 3599);
    assert_eq!(floor_mod(i64::MIN, 2), 0);
}

#[test]
fn floor_div_and_floor_mod_rebuild_the_number() {
    for a in -50i64..50 {
        for b in 1i64..12 {
            let q = floor_div(a, b);
            let r = floor_mod(a, b);
            assert_eq!(q * b + r, a);
            assert!(0 <= r && r < b);
        }
    }
}

#[test]
fn clamp_limits_both_ways() {
    assert_eq!(clamp(5, 0, 10), 5);
    assert_eq!(clamp(-5, 0, 10), 0);
    assert_eq!(clamp(15, 0, 10), 10);
    assert_eq!(clamp(3, 3, 3), 3);
}

#[test]
fn isqrt_rounds_down() {
    assert_eq!(isqrt(0), 0);
    assert_eq!(isqrt(1), 1);
    assert_eq!(isqrt(3), 1);
    assert_eq!(isqrt(4), 2);
    assert_eq!(isqrt(24), 4);
    assert_eq!(isqrt(25), 5);
    assert_eq!(isqrt(1_000_000), 1000);
    assert_eq!(isqrt(u128::MAX), u64::MAX);
}

#[test]
fn isqrt_brackets_its_argument() {
    for n in 0u128..2000 {
        let r = isqrt(n) as u128;
        assert!(r * r <= n);
        assert!(n < (r + 1) * (r + 1));
    }
}

#[test]
fn dist_of_a_three_four_five_triangle() {
    assert_eq!(dist(0, 0, 3, 4), 5);
    assert_eq!(dist(10, 10, 7, 6), 5);
    assert_eq!(dist(5, 5, 5, 5), 0);
    assert_eq!(dist(0, 0, 1, 1), 1);
    assert_eq!(dist(-300, 0, 300, 0), 600);
}

#[test]
fn dist_at_the_limits() {
    assert_eq!(dist(-COORD_LIMIT, 0, COORD_LIMIT, 0), 2 * COORD_LIMIT);
    let far = dist(-COORD_LIMIT, -COORD_LIMIT, COORD_LIMIT, COORD_LIMIT);
    assert_eq!(far, 6521908912666391106);
}

#[test]
fn wrap_angle_brings_angles_into_a_turn() {
    assert_eq!(wrap_angle(0), 0);
    assert_eq!(wrap_angle(3599), 3599);
    assert_eq!(wrap_angle(3600), 0);
    assert_eq!(wrap_angle(-1), 3599);
    assert_eq!(wrap_angle(7205), 5);
    assert_eq!(wrap_angle(i64::MIN), 1792);
}

#[test]
fn turning_keeps_the_angle_in_range() {
    for start in [0i64, 1, 899, 1800, 3599] {
        for delta in [-100_000i64, -3601, -3600, -1, 0, 1, 3600, 3601, 100_000] {
            let a = turned(start, delta);
            assert!(0 <= a && a < FULL_TURN);
            assert_eq!(a, (start + delta).rem_euclid(3600));
        }
    }
    assert_eq!(turned(i64::MAX, i64::MAX), 14);
}

#[test]
fn sine_table_is_checked() {
    assert!(TrigTable::new(quarter_wave()).is_some());
    assert!(TrigTable::new(Vec::new()).is_none());
    let mut short = quarter_wave();
    short.pop();
    assert!(TrigTable::new(short).is_none());
    let mut long = quarter_wave();
    long.push(65536);
    assert!(TrigTable::new(long).is_none());
    let mut bad_start = quarter_wave();
    bad_start[0] = 1;
    assert!(TrigTable::new(bad_start).is_none());
    let mut bad_end = quarter_wave();
    bad_end[900] = 65535;
    assert!(TrigTable::new(bad_end).is_none());
    let mut zero_inside = quarter_wave();
    zero_inside[450] = 0;
    assert!(TrigTable::new(zero_inside).is_none());
    let mut too_large = quarter_wave();
    too_large[450] = 65537;
    assert!(TrigTable::new(too_large).is_none());
    let mut negative = quarter_wave();
    negative[1] = -5;
    assert!(TrigTable::new(negative).is_none());
}

#[test]
fn sines_and_cosines_at_the_axes() {
    let trig = TrigTable::new(quarter_wave()).unwrap();
    assert_eq!(trig.sin(0), 0);
    assert_eq!(trig.sin(900), 65536);
    assert_eq!(trig.sin(1800), 0);
    assert_eq!(trig.sin(2700), -65536);
    assert_eq!(trig.cos(0), 65536);
    assert_eq!(trig.cos(900), 0);
    assert_eq!(trig.cos(1800), -65536);
    assert_eq!(trig.cos(2700), 0);
}

#[test]
fn sines_and_cosines_in_between() {
    let trig = TrigTable::new(quarter_wave()).unwrap();
    assert_eq!(trig.sin(300), 32768);
    assert_eq!(trig.cos(600), 32768);
    assert_eq!(trig.sin(1500), 32768);
    assert_eq!(trig.sin(2100), -32768);
    assert_eq!(trig.sin(3300), -32768);
    assert_eq!(trig.cos(1200), -32768);
    assert_eq!(trig.cos(2400), -32768);
    assert_eq!(trig.cos(3000), 32768);
    assert_eq!(trig.sin(450), 46341);
    assert_eq!(trig.cos(450), 46341);
}

#[test]
fn sines_and_cosines_wrap_around() {
    let trig = TrigTable::new(quarter_wave()).unwrap();
    for a in [-7200i64, -3601, -1, 0, 1, 1234, 3600, 99_999] {
        assert_eq!(trig.sin(a), trig.sin(a.rem_euclid(3600)));
        assert_eq!(trig.cos(a), trig.cos(a.rem_euclid(3600)));
        assert_eq!(trig.cos(a), trig.sin(a.rem_euclid(3600) + 900));
    }
    assert_eq!(trig.cos(i64::MAX), trig.cos(i64::MAX.rem_euclid(3600)));
}

#[test]
fn sines_follow_the_real_sine() {
    let trig = TrigTable::new(quarter_wave()).unwrap();
    for a in 0..3600i64 {
        let exact = (a as f64 / 10.0).to_radians().sin() * 65536.0;
        assert!((trig.sin(a) as f64 - exact).abs() <= 0.5 + 1e-6);
        let exact_cos = (a as f64 / 10.0).to_radians().cos() * 65536.0;
        assert!((trig.cos(a) as f64 - exact_cos).abs() <= 0.5 + 1e-6);
    }
}
