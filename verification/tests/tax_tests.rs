use pph21::ptkp::TerCategory;
use pph21::tax::{
    calculate_gross, calculate_gross_up_with_dynamic_ter, calculate_pph21, CalculationMethod,
    MAX_INCOME,
};
use pph21::ter::get_ter_rate;

#[test]
fn gross_scenario_category_a_ten_million() {
    let rate = get_ter_rate(TerCategory::A, 10_000_000);
    assert_eq!(rate, 200);
    assert_eq!(calculate_gross(10_000_000, rate), 200_000);
}

#[test]
fn gross_tax_zero_income_at_any_rate() {
    for rate in [0, 25, 200, 1800, 3400, 9999] {
        assert_eq!(calculate_gross(0, rate), 0);
    }
}

#[test]
fn gross_tax_exact_floor() {
    assert_eq!(calculate_gross(12_345_678, 350), 432_098);
    assert_eq!(calculate_gross(1, 9999), 0);
    assert_eq!(calculate_gross(MAX_INCOME, 3400), 340_000_000_000_000);
}

#[test]
fn gross_tax_monotone_in_income() {
    let mut previous = 0;
    for bruto in [0, 1, 5_400_000, 10_000_000, 50_000_000, 1_000_000_000, MAX_INCOME] {
        let tax = calculate_gross(bruto, 1800);
        assert!(tax >= previous);
        assert!(tax <= bruto);
        previous = tax;
    }
}

#[test]
fn gross_up_fifty_million_category_a_converges() {
    let (tunjangan, pph21, rate) = calculate_gross_up_with_dynamic_ter(50_000_000, TerCategory::A);
    assert_eq!(rate, 2100);
    assert_eq!(tunjangan, 13_291_139);
    assert_eq!(pph21, 13_291_139);
    // Re-applying bracket lookup to the grossed-up total reproduces the
    // returned effective rate: the loop settled, it did not oscillate.
    assert_eq!(get_ter_rate(TerCategory::A, 50_000_000 + tunjangan), rate);
}

#[test]
fn gross_up_crosses_one_bracket() {
    // 10,000,000 starts at 2.00% but the grossed-up total falls in the
    // 2.25% bracket, where the rate reproduces itself.
    let (tunjangan, pph21, rate) = calculate_gross_up_with_dynamic_ter(10_000_000, TerCategory::A);
    assert_eq!(rate, 225);
    assert_eq!(tunjangan, 230_179);
    assert_eq!(pph21, 230_179);
    assert_eq!(get_ter_rate(TerCategory::A, 10_230_179), 225);
}

#[test]
fn gross_up_category_b_stable_at_once() {
    let (tunjangan, pph21, rate) = calculate_gross_up_with_dynamic_ter(20_000_000, TerCategory::B);
    assert_eq!(rate, 800);
    assert_eq!(tunjangan, 1_739_130);
    assert_eq!(pph21, 1_739_130);
}

#[test]
fn gross_up_category_c_hundred_million() {
    let (tunjangan, pph21, rate) = calculate_gross_up_with_dynamic_ter(100_000_000, TerCategory::C);
    assert_eq!(rate, 2500);
    assert_eq!(tunjangan, 33_333_333);
    assert_eq!(pph21, 33_333_333);
    assert_eq!(get_ter_rate(TerCategory::C, 133_333_333), 2500);
}

#[test]
fn gross_up_zero_income() {
    let (tunjangan, pph21, rate) = calculate_gross_up_with_dynamic_ter(0, TerCategory::A);
    assert_eq!((tunjangan, pph21, rate), (0, 0, 0));
}

#[test]
fn gross_up_identical_inputs_identical_results() {
    for bruto in [0, 7_000_000, 50_000_000, 999_999_999, MAX_INCOME] {
        for category in [TerCategory::A, TerCategory::B, TerCategory::C] {
            let first = calculate_gross_up_with_dynamic_ter(bruto, category);
            let second = calculate_gross_up_with_dynamic_ter(bruto, category);
            assert_eq!(first, second);
        }
    }
}

#[test]
fn dispatch_gross() {
    let (tunjangan, pph21, rate) =
        calculate_pph21(10_000_000, TerCategory::A, CalculationMethod::Gross);
    assert_eq!(tunjangan, 0);
    assert_eq!(rate, 200);
    assert_eq!(pph21, 200_000);
}

#[test]
fn dispatch_gross_up_matches_direct_call() {
    let direct = calculate_gross_up_with_dynamic_ter(50_000_000, TerCategory::A);
    let dispatched = calculate_pph21(50_000_000, TerCategory::A, CalculationMethod::GrossUp);
    assert_eq!(direct, dispatched);
}
