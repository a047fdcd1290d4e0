use sizetree::size_utils::human_readable;

#[test]
fn bytes_below_a_kilobyte() {
    assert_eq!(human_readable(0), "0 B");
    assert_eq!(human_readable(7), "7 B");
    assert_eq!(human_readable(999), "999 B");
}

#[test]
fn unit_boundaries() {
    assert_eq!(human_readable(1000), "1.00 KB");
    assert_eq!(human_readable(1_000_000), "1.00 MB");
    assert_eq!(human_readable(1_500_000_000), "1.50 GB");
}

#[test]
fn two_decimals_rounded() {
    assert_eq!(human_readable(1234), "1.23 KB");
    assert_eq!(human_readable(1236), "1.24 KB");
    assert_eq!(human_readable(999_999), "1000.00 KB");
    assert_eq!(human_readable(2_345_678), "2.35 MB");
    assert_eq!(human_readable(u64::MAX), "18446744073.71 GB");
}
