use flasher::human::human_bytes;

#[test]
fn below_one_kib_is_whole_bytes() {
    assert_eq!(human_bytes(0), "0 B");
    assert_eq!(human_bytes(7), "7 B");
    assert_eq!(human_bytes(1023), "1023 B");
}

#[test]
fn boundary_values() {
    assert_eq!(human_bytes(1024), "1.0 KiB");
    assert_eq!(human_bytes(1024 * 1024), "1.0 MiB");
    assert_eq!(human_bytes(1536 * 1024 * 1024), "1.50 GiB");
    assert_eq!(human_bytes(1024 * 1024 * 1024), "1.00 GiB");
    assert_eq!(human_bytes(1024 * 1024 * 1024 * 1024), "1.00 TiB");
}

#[test]
fn one_decimal_place_rounds() {
    assert_eq!(human_bytes(1100), "1.1 KiB");
    assert_eq!(human_bytes(1536), "1.5 KiB");
    assert_eq!(human_bytes(10 * 1024 * 1024 + 700 * 1024), "10.7 MiB");
}

#[test]
fn tie_rounds_to_even_digit() {
    // 1280 bytes is exactly 1.25 KiB
    assert_eq!(human_bytes(1280), "1.2 KiB");
    // 1792 bytes is exactly 1.75 KiB
    assert_eq!(human_bytes(1792), "1.8 KiB");
}

#[test]
fn just_below_next_unit_keeps_smaller_unit() {
    assert_eq!(human_bytes(1024 * 1024 - 1), "1024.0 KiB");
}

#[test]
fn two_decimal_places_keep_leading_zero() {
    // 1.05 GiB
    assert_eq!(human_bytes(1024 * 1024 * 1024 + 1024 * 1024 * 1024 / 20), "1.05 GiB");
}

#[test]
fn largest_value_is_in_tib() {
    assert_eq!(human_bytes(u64::MAX), "16777216.00 TiB");
    assert_eq!(human_bytes(500 * 1024 * 1024 * 1024 * 1024), "500.00 TiB");
}
