use whereami::units::{get_data_unit, get_timeval};

#[test]
fn data_unit_below_first_threshold_is_unscaled() {
    assert_eq!(get_data_unit(0), "0\tKB");
    assert_eq!(get_data_unit(1), "1\tKB");
    assert_eq!(get_data_unit(500), "500\tKB");
    assert_eq!(get_data_unit(1023), "1023\tKB");
}

#[test]
fn data_unit_mb_band() {
    assert_eq!(get_data_unit(1024), "1.00\tMB");
    assert_eq!(get_data_unit(1536), "1.50\tMB");
    assert_eq!(get_data_unit(123456), "120.56\tMB");
    assert_eq!(get_data_unit(1048573), "1024.00\tMB");
}

#[test]
fn data_unit_mb_band_matches_float_division() {
    for b in [1024u64, 1025, 1536, 2047, 4096, 123456, 1000000, 1048573] {
        assert_eq!(get_data_unit(b), format!("{:.2}\tMB", b as f64 / 1024.0));
    }
}

#[test]
fn data_unit_rounds_ties_to_even() {
    // 1152 / 1024 is exactly 1.125, which rounds to the even hundredth.
    assert_eq!(get_data_unit(1152), format!("{:.2}\tMB", 1152.0f64 / 1024.0));
    assert_eq!(get_data_unit(1152), "1.12\tMB");
}

#[test]
fn data_unit_upper_bands() {
    assert_eq!(get_data_unit(1048574), "1.00\tGB");
    assert_eq!(get_data_unit(123456789), "117.74\tGB");
    assert_eq!(get_data_unit(1 << 30), "1.00\tTB");
    assert_eq!(get_data_unit(1 << 40), "1.00\tPB");
    assert_eq!(get_data_unit(1 << 50), "1.00\tEB");
    assert_eq!(get_data_unit(11258999068426239), "10.00\tEB");
}

#[test]
fn data_unit_sentinel_at_limit() {
    assert_eq!(get_data_unit(11258999068426240), "Cannot infer data size");
    assert_eq!(get_data_unit(u64::MAX), "Cannot infer data size");
}

#[test]
fn timeval_six_decimal_digits() {
    assert_eq!(get_timeval(5, 500000), "5.500000");
    assert_eq!(get_timeval(0, 0), "0.000000");
    assert_eq!(get_timeval(1, 1), "1.000001");
    assert_eq!(get_timeval(123, 999999), "123.999999");
}

#[test]
fn timeval_matches_float_rendering() {
    assert_eq!(
        get_timeval(5, 500000),
        format!("{:.6?}", 5.0f64 + 500000.0f64 / 1_000_000.0)
    );
}
