use pph21::input::{method_from_choice, parse_income, ptkp_from_choice, IncomeInputError};
use pph21::ptkp::PtkpStatus;
use pph21::tax::CalculationMethod;

fn chars(s: &str) -> Vec<char> {
    s.chars().collect()
}

#[test]
fn plain_number_is_accepted() {
    assert_eq!(parse_income(&chars("10000")), Ok(10_000));
    assert_eq!(parse_income(&chars("0")), Ok(0));
    assert_eq!(parse_income(&chars("007")), Ok(7));
    assert_eq!(parse_income(&chars("1000000000000000")), Ok(1_000_000_000_000_000));
}

#[test]
fn separators_are_rejected() {
    assert_eq!(parse_income(&chars("10.000")), Err(IncomeInputError::Separator));
    assert_eq!(parse_income(&chars("10,000")), Err(IncomeInputError::Separator));
    assert_eq!(parse_income(&chars(".")), Err(IncomeInputError::Separator));
    assert_eq!(parse_income(&chars("3,5")), Err(IncomeInputError::Separator));
}

#[test]
fn empty_line_is_rejected() {
    assert_eq!(parse_income(&chars("")), Err(IncomeInputError::Empty));
}

#[test]
fn foreign_characters_are_rejected() {
    assert_eq!(parse_income(&chars("abc")), Err(IncomeInputError::NonDigit));
    assert_eq!(parse_income(&chars("12a4")), Err(IncomeInputError::NonDigit));
    assert_eq!(parse_income(&chars(" 123")), Err(IncomeInputError::NonDigit));
    assert_eq!(parse_income(&chars("-5")), Err(IncomeInputError::NonDigit));
}

#[test]
fn too_large_values_are_rejected() {
    assert_eq!(parse_income(&chars("1000000000000001")), Err(IncomeInputError::TooLarge));
    assert_eq!(parse_income(&chars("9223372036854775807")), Err(IncomeInputError::TooLarge));
}

#[test]
fn values_beyond_the_signed_range_are_rejected() {
    assert_eq!(parse_income(&chars("9223372036854775808")), Err(IncomeInputError::Overflow));
    assert_eq!(
        parse_income(&chars("99999999999999999999999999999999999999999")),
        Err(IncomeInputError::Overflow)
    );
}

#[test]
fn long_runs_of_zeros_stay_zero() {
    assert_eq!(parse_income(&chars("00000000000000000000000000")), Ok(0));
}

#[test]
fn ptkp_selection_maps_all_eight() {
    assert_eq!(ptkp_from_choice(&chars("1")), Some(PtkpStatus::TK0));
    assert_eq!(ptkp_from_choice(&chars("2")), Some(PtkpStatus::TK1));
    assert_eq!(ptkp_from_choice(&chars("3")), Some(PtkpStatus::TK2));
    assert_eq!(ptkp_from_choice(&chars("4")), Some(PtkpStatus::TK3));
    assert_eq!(ptkp_from_choice(&chars("5")), Some(PtkpStatus::K0));
    assert_eq!(ptkp_from_choice(&chars("6")), Some(PtkpStatus::K1));
    assert_eq!(ptkp_from_choice(&chars("7")), Some(PtkpStatus::K2));
    assert_eq!(ptkp_from_choice(&chars("8")), Some(PtkpStatus::K3));
}

#[test]
fn ptkp_selection_rejects_everything_else() {
    assert_eq!(ptkp_from_choice(&chars("0")), None);
    assert_eq!(ptkp_from_choice(&chars("9")), None);
    assert_eq!(ptkp_from_choice(&chars("12")), None);
    assert_eq!(ptkp_from_choice(&chars("")), None);
    assert_eq!(ptkp_from_choice(&chars("x")), None);
}

#[test]
fn method_selection() {
    assert_eq!(method_from_choice(&chars("1")), Some(CalculationMethod::Gross));
    assert_eq!(method_from_choice(&chars("2")), Some(CalculationMethod::GrossUp));
    assert_eq!(method_from_choice(&chars("3")), None);
    assert_eq!(method_from_choice(&chars("")), None);
    assert_eq!(method_from_choice(&chars("11")), None);
}
