use bench_map::number_formatter::{format_n, MAX_DIGITS, TARGET_WIDTH};

#[test]
fn format_n_groups_thousands_and_pads() {
    assert_eq!(format_n(1234), "    1_234");
    assert_eq!(format_n(1_000), "    1_000");
    assert_eq!(format_n(10_000), "   10_000");
    assert_eq!(format_n(100_000), "  100_000");
    assert_eq!(format_n(1_000_000), "1_000_000");
}

#[test]
fn format_n_small_numbers() {
    assert_eq!(format_n(0), "        0");
    assert_eq!(format_n(7), "        7");
    assert_eq!(format_n(999), "      999");
}

#[test]
fn format_n_wider_than_target_is_not_cut() {
    assert_eq!(format_n(12_345_678), "12_345_678");
    assert_eq!(format_n(usize::MAX).len(), usize::MAX.to_string().len() + (usize::MAX.to_string().len() - 1) / 3);
}

#[test]
fn format_n_width_constants() {
    assert_eq!(MAX_DIGITS, 7);
    assert_eq!(TARGET_WIDTH, 9);
    for n in [0usize, 5, 42, 999, 1000, 65_536, 999_999, 9_999_999] {
        assert_eq!(format_n(n).len(), TARGET_WIDTH);
    }
}
