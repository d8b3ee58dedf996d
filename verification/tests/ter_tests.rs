use pph21::ptkp::TerCategory;
use pph21::ter::get_ter_rate;

#[test]
fn lowest_bracket_is_inclusive() {
    assert_eq!(get_ter_rate(TerCategory::A, 0), 0);
    assert_eq!(get_ter_rate(TerCategory::A, 5_400_000), 0);
    assert_eq!(get_ter_rate(TerCategory::A, 5_400_001), 25);
    assert_eq!(get_ter_rate(TerCategory::B, 6_200_000), 0);
    assert_eq!(get_ter_rate(TerCategory::B, 6_200_001), 25);
    assert_eq!(get_ter_rate(TerCategory::C, 6_600_000), 0);
    assert_eq!(get_ter_rate(TerCategory::C, 6_600_001), 25);
}

#[test]
fn final_boundary_takes_second_highest_rate() {
    // An income exactly on the last bound before the sentinel takes that
    // bracket's rate, not the sentinel's top rate.
    assert_eq!(get_ter_rate(TerCategory::A, 1_400_000_000), 3300);
    assert_eq!(get_ter_rate(TerCategory::A, 1_400_000_001), 3400);
    assert_eq!(get_ter_rate(TerCategory::B, 1_405_000_000), 3300);
    assert_eq!(get_ter_rate(TerCategory::B, 1_405_000_001), 3400);
    assert_eq!(get_ter_rate(TerCategory::C, 957_000_000), 3100);
    assert_eq!(get_ter_rate(TerCategory::C, 957_000_001), 3200);
}

#[test]
fn middle_brackets() {
    assert_eq!(get_ter_rate(TerCategory::A, 10_000_000), 200);
    assert_eq!(get_ter_rate(TerCategory::A, 10_050_000), 200);
    assert_eq!(get_ter_rate(TerCategory::A, 10_050_001), 225);
    assert_eq!(get_ter_rate(TerCategory::B, 20_000_000), 800);
    assert_eq!(get_ter_rate(TerCategory::C, 100_000_000), 2300);
}

#[test]
fn top_bracket_covers_largest_income() {
    assert_eq!(get_ter_rate(TerCategory::A, 1_000_000_000_000_000), 3400);
    assert_eq!(get_ter_rate(TerCategory::B, 1_000_000_000_000_000), 3400);
    assert_eq!(get_ter_rate(TerCategory::C, 1_000_000_000_000_000), 3200);
}

#[test]
fn rate_never_decreases_with_income() {
    for category in [TerCategory::A, TerCategory::B, TerCategory::C] {
        let mut previous = 0;
        let mut income: i64 = 1;
        while income <= 10_000_000_000 {
            let rate = get_ter_rate(category, income);
            assert!(rate >= previous);
            previous = rate;
            income *= 3;
        }
    }
}
