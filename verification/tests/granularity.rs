use speculare_server::granularity::get_granularity;

/// The server's formula, in single precision.
fn float_granularity(size: i64) -> u16 {
    ((0.00192859 * size as f32) * (1.00694) + 0.298206) as u16
}

#[test]
fn documented_sizes() {
    assert_eq!(get_granularity(300), 0);
    assert_eq!(get_granularity(900), 2);
    assert_eq!(get_granularity(1800), 3);
    assert_eq!(get_granularity(7200), 14);
    assert_eq!(get_granularity(21600), 42);
}

#[test]
fn constants_are_the_floats_used() {
    assert_eq!(0.00192859f32 as f64, 8283231.0 / 4294967296.0);
    assert_eq!(1.00694f32 as f64, 8446825.0 / 8388608.0);
    assert_eq!(0.298206f32 as f64, 10006133.0 / 33554432.0);
}

#[test]
fn small_and_negative_sizes_give_zero() {
    for size in [-29999999i64, -1_000_000, -154, -1, 0, 1, 153, 154] {
        assert_eq!(get_granularity(size), float_granularity(size), "size {}", size);
    }
    assert_eq!(get_granularity(i64::MIN), 0);
}

#[test]
fn agrees_with_single_precision_on_first_sizes() {
    for size in 0..200_000i64 {
        assert_eq!(get_granularity(size), float_granularity(size), "size {}", size);
    }
}

#[test]
fn agrees_with_single_precision_across_range() {
    let mut size = 200_000i64;
    while size < 30_000_000 {
        assert_eq!(get_granularity(size), float_granularity(size), "size {}", size);
        size += 997;
    }
    // Sizes where rounding in single precision departs from exact arithmetic.
    for size in [123432i64, 140425, 166172, 191919, 208912, 234659, 397380, 525600, 16777217, 16777219, 29999999] {
        assert_eq!(get_granularity(size), float_granularity(size), "size {}", size);
    }
}

#[test]
fn granularity_never_decreases_with_size() {
    let mut prev = get_granularity(-5);
    let mut size = -4i64;
    while size < 30_000_000 {
        let g = get_granularity(size);
        assert!(prev <= g, "size {}", size);
        prev = g;
        size += if size < 100_000 { 1 } else { 331 };
    }
    assert!(get_granularity(29_999_998) <= get_granularity(29_999_999));
}
