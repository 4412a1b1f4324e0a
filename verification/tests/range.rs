use tablet_host::range::ValuatorRange;

#[test]
fn remap_hits_both_endpoints() {
    let range = ValuatorRange { min: 0, max: 2047 };
    assert_eq!(range.convert_range(0, 0, 1024), 0);
    assert_eq!(range.convert_range(2047, 0, 1024), 1024);
    let tilt = ValuatorRange { min: -64, max: 63 };
    assert_eq!(tilt.convert_range(-64, -90, 90), -90);
    assert_eq!(tilt.convert_range(63, -90, 90), 90);
}

#[test]
fn remap_follows_the_formula() {
    let range = ValuatorRange { min: 0, max: 2047 };
    // 1023 * 1024 / 2047 = 511.75, cut to 511
    assert_eq!(range.convert_range(1023, 0, 1024), 511);
    assert_eq!(range.convert_range(1024, 0, 1024), 512);
    assert_eq!(range.convert_range(1, 0, 1024), 0);
    assert_eq!(range.convert_range(2, 0, 1024), 1);
    let shifted = ValuatorRange { min: 100, max: 300 };
    // 50 + (150 - 100) * (250 - 50) / (300 - 100) = 100
    assert_eq!(shifted.convert_range(150, 50, 250), 100);
}

#[test]
fn remap_rounds_toward_zero() {
    let range = ValuatorRange { min: 0, max: 10 };
    // -5 * 3 / 10 = -1.5
    assert_eq!(range.convert_range(-5, 0, 3), -1);
    // 5 * 3 / 10 = 1.5
    assert_eq!(range.convert_range(5, 0, 3), 1);
    // 5 * -3 / 10 = -1.5
    assert_eq!(range.convert_range(5, 0, -3), -1);
    let tilt = ValuatorRange { min: -64, max: 63 };
    // -90 + 64 * 180 / 127 = -90 + 90.7
    assert_eq!(tilt.convert_range(0, -90, 90), 0);
    // -90 + 1 * 180 / 127
    assert_eq!(tilt.convert_range(-63, -90, 90), -89);
}

#[test]
fn remap_is_monotonic_over_an_upward_range() {
    let range = ValuatorRange { min: -300, max: 700 };
    let mut previous = range.convert_range(-300, 0, 1024);
    let mut value = -299;
    while value <= 700 {
        let next = range.convert_range(value, 0, 1024);
        assert!(previous <= next);
        assert!(0 <= next && next <= 1024);
        previous = next;
        value += 1;
    }
    assert_eq!(previous, 1024);
}

#[test]
fn remap_to_a_downward_range_runs_downward() {
    let range = ValuatorRange { min: 0, max: 100 };
    let mut previous = range.convert_range(0, 90, -90);
    assert_eq!(previous, 90);
    let mut value = 1;
    while value <= 100 {
        let next = range.convert_range(value, 90, -90);
        assert!(previous >= next);
        previous = next;
        value += 1;
    }
    assert_eq!(previous, -90);
}

#[test]
fn remap_accepts_a_reversed_source_range() {
    let range = ValuatorRange { min: 2047, max: 0 };
    assert_eq!(range.convert_range(2047, 0, 1024), 0);
    assert_eq!(range.convert_range(0, 0, 1024), 1024);
    // (1023 - 2047) * 1024 / -2047 = 512.25
    assert_eq!(range.convert_range(1023, 0, 1024), 512);
}

#[test]
fn remap_continues_the_line_outside_the_range() {
    let range = ValuatorRange { min: 0, max: 100 };
    assert_eq!(range.convert_range(200, 0, 1024), 2048);
    assert_eq!(range.convert_range(-100, 0, 1024), -1024);
}

#[test]
fn remap_spans_the_whole_width_without_loss() {
    let range = ValuatorRange { min: i64::MIN, max: i64::MAX };
    assert_eq!(range.convert_range(i64::MAX, i64::MIN, i64::MAX), i64::MAX);
    assert_eq!(range.convert_range(i64::MIN, i64::MIN, i64::MAX), i64::MIN);
    assert_eq!(range.convert_range(0, i64::MIN, i64::MAX), 0);
    assert_eq!(range.convert_range(-1, i64::MIN, i64::MAX), -1);
    assert_eq!(range.convert_range(i64::MAX, i64::MAX, i64::MIN), i64::MIN);
}

#[test]
fn remap_keeps_the_low_64_bits_of_a_result_that_is_too_large() {
    let range = ValuatorRange { min: 0, max: 1 };
    // (2^63 - 1)^2 = 2^126 - 2^64 + 1, of which the low 64 bits are 1
    assert_eq!(range.convert_range(i64::MAX, 0, i64::MAX), 1);
    // 2 * (2^63 - 1) = 2^64 - 2, read as signed: -2
    assert_eq!(range.convert_range(2, 0, i64::MAX), -2);
    // 1 + 2^63, read as signed
    assert_eq!(range.convert_range(-1, 1, i64::MIN + 1), i64::MIN + 1);
}
