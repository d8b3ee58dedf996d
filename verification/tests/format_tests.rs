use pph21::formatting::format_rupiah;

#[test]
fn zero_renders_as_marker_and_zero() {
    assert_eq!(format_rupiah(0), "Rp 0");
}

#[test]
fn short_amounts_have_no_separator() {
    assert_eq!(format_rupiah(7), "Rp 7");
    assert_eq!(format_rupiah(42), "Rp 42");
    assert_eq!(format_rupiah(100), "Rp 100");
    assert_eq!(format_rupiah(999), "Rp 999");
}

#[test]
fn grouping_starts_at_four_digits() {
    assert_eq!(format_rupiah(1_000), "Rp 1.000");
    assert_eq!(format_rupiah(54_321), "Rp 54.321");
    assert_eq!(format_rupiah(654_321), "Rp 654.321");
    assert_eq!(format_rupiah(1_234_567), "Rp 1.234.567");
}

#[test]
fn typical_salary_amounts() {
    assert_eq!(format_rupiah(10_000_000), "Rp 10.000.000");
    assert_eq!(format_rupiah(13_291_139), "Rp 13.291.139");
    assert_eq!(format_rupiah(200_000), "Rp 200.000");
}

#[test]
fn largest_admitted_amount() {
    assert_eq!(format_rupiah(1_000_000_000_000_000), "Rp 1.000.000.000.000.000");
}
