//! Validation of the lines the interactive collaborator reads: the income
//! amount and the menu selections. The collaborator itself only prompts,
//! reads and re-prompts; every decision about a line is made here.

use vstd::prelude::*;

use crate::ptkp::PtkpStatus;
use crate::tax::{CalculationMethod, MAX_INCOME};

verus! {

/// Why an income line is rejected.
#[derive(Debug, Clone, Copy, PartialEq, Eq, Structural)]
pub enum IncomeInputError {
    /// The line holds a period or comma: separators and decimals are refused.
    Separator,
    /// The line is empty.
    Empty,
    /// The line holds a character other than an ASCII digit.
    NonDigit,
    /// The digits denote a value beyond the machine's signed 64-bit range.
    Overflow,
    /// The value exceeds the largest admitted income of 10^15 rupiah.
    TooLarge,
}

/// Whether `c` is an ASCII decimal digit.
pub open spec fn spec_is_digit(c: char) -> bool {
    c == '0' || c == '1' || c == '2' || c == '3' || c == '4' || c == '5' || c == '6' || c == '7'
        || c == '8' || c == '9'
}

/// The numeric value of a digit character.
pub open spec fn spec_digit_value(c: char) -> int {
    if c == '0' {
        0
    } else if c == '1' {
        1
    } else if c == '2' {
        2
    } else if c == '3' {
        3
    } else if c == '4' {
        4
    } else if c == '5' {
        5
    } else if c == '6' {
        6
    } else if c == '7' {
        7
    } else if c == '8' {
        8
    } else {
        9
    }
}

/// The digit value of a digit character, for the accumulating scan.
fn digit_value(c: char) -> (d: u64)
    requires
        spec_is_digit(c),
    ensures
        d == spec_digit_value(c),
        d <= 9,
{
    match c {
        '0' => 0,
        '1' => 1,
        '2' => 2,
        '3' => 3,
        '4' => 4,
        '5' => 5,
        '6' => 6,
        '7' => 7,
        '8' => 8,
        _ => 9,
    }
}

/// The numeric value of a run of digit characters, leading zeros allowed.
pub open spec fn spec_digits_value(s: Seq<char>) -> int
    decreases s.len(),
{
    if s.len() == 0 {
        0
    } else {
        spec_digits_value(s.take(s.len() - 1)) * 10 + spec_digit_value(s.last())
    }
}

/// How an income line is judged: separators first, then emptiness, then
/// foreign characters, then magnitude; a faultless line yields its value.
pub open spec fn spec_parse_income(s: Seq<char>) -> Result<i64, IncomeInputError> {
    if exists|i: int| 0 <= i < s.len() && (s[i] == '.' || s[i] == ',') {
        Err(IncomeInputError::Separator)
    } else if s.len() == 0 {
        Err(IncomeInputError::Empty)
    } else if exists|i: int| 0 <= i < s.len() && !spec_is_digit(s[i]) {
        Err(IncomeInputError::NonDigit)
    } else if spec_digits_value(s) > i64::MAX {
        Err(IncomeInputError::Overflow)
    } else if spec_digits_value(s) > MAX_INCOME {
        Err(IncomeInputError::TooLarge)
    } else {
        Ok(spec_digits_value(s) as i64)
    }
}

/// The value of a run of digits is never negative.
proof fn lemma_digits_value_nonneg(s: Seq<char>)
    requires
        forall|i: int| 0 <= i < s.len() ==> spec_is_digit(#[trigger] s[i]),
    ensures
        0 <= spec_digits_value(s),
    decreases s.len(),
{
    if s.len() > 0 {
        let prefix = s.take(s.len() - 1);
        assert(forall|i: int| 0 <= i < prefix.len() ==> spec_is_digit(#[trigger] prefix[i]));
        lemma_digits_value_nonneg(prefix);
    }
}

/// Appending digits never shrinks the value: a prefix's value bounds the
/// whole run's value from below.
proof fn lemma_digits_value_prefix_le(s: Seq<char>, k: int)
    requires
        forall|i: int| 0 <= i < s.len() ==> spec_is_digit(#[trigger] s[i]),
        0 <= k <= s.len(),
    ensures
        spec_digits_value(s.take(k)) <= spec_digits_value(s),
    decreases s.len() - k,
{
    if k < s.len() {
        lemma_digits_value_prefix_le(s, k + 1);
        let shorter = s.take(k + 1);
        assert(shorter.take(k) =~= s.take(k));
        assert(forall|i: int| 0 <= i < shorter.len() ==> spec_is_digit(#[trigger] shorter[i]));
        lemma_digits_value_nonneg(s.take(k));
        assert(spec_digits_value(shorter) == spec_digits_value(s.take(k)) * 10 + spec_digit_value(
            shorter.last(),
        ));
    } else {
        assert(s.take(k) =~= s);
    }
}

/// Judges an income line: rejects separator characters, emptiness,
/// non-digits and over-large magnitudes, and returns the value of a
/// faultless line.
pub fn parse_income(line: &Vec<char>) -> (result: Result<i64, IncomeInputError>)
    ensures
        result == spec_parse_income(line@),
{
    let n = line.len();
    for i in 0..n
        invariant
            n == line@.len(),
            forall|j: int| 0 <= j < i ==> !(#[trigger] line@[j] == '.' || line@[j] == ','),
    {
        let c = line[i];
        if c == '.' || c == ',' {
            return Err(IncomeInputError::Separator);
        }
    }
    if n == 0 {
        return Err(IncomeInputError::Empty);
    }
    for i in 0..n
        invariant
            n == line@.len(),
            forall|j: int| 0 <= j < n ==> !(#[trigger] line@[j] == '.' || line@[j] == ','),
            forall|j: int| 0 <= j < i ==> spec_is_digit(#[trigger] line@[j]),
    {
        let c = line[i];
        let is_digit = match c {
            '0' | '1' | '2' | '3' | '4' | '5' | '6' | '7' | '8' | '9' => true,
            _ => false,
        };
        if !is_digit {
            return Err(IncomeInputError::NonDigit);
        }
    }
    let mut acc: u128 = 0;
    for i in 0..n
        invariant
            n == line@.len(),
            n > 0,
            forall|j: int| 0 <= j < n ==> !(#[trigger] line@[j] == '.' || line@[j] == ','),
            forall|j: int| 0 <= j < n ==> spec_is_digit(#[trigger] line@[j]),
            acc == spec_digits_value(line@.take(i as int)),
            acc <= i64::MAX,
    {
        let d = digit_value(line[i]) as u128;
        acc = acc * 10 + d;
        proof {
            assert(line@.take(i + 1 as int).take(i as int) =~= line@.take(i as int));
            assert(line@.take(i + 1 as int).last() == line@[i as int]);
        }
        if acc > i64::MAX as u128 {
            proof {
                lemma_digits_value_prefix_le(line@, i + 1);
            }
            return Err(IncomeInputError::Overflow);
        }
    }
    proof {
        assert(line@.take(n as int) =~= line@);
    }
    if acc > MAX_INCOME as u128 {
        return Err(IncomeInputError::TooLarge);
    }
    Ok(acc as i64)
}

/// Maps a PTKP menu selection line ("1" through "8") to its status.
pub open spec fn spec_ptkp_choice(s: Seq<char>) -> Option<PtkpStatus> {
    if s == seq!['1'] {
        Some(PtkpStatus::TK0)
    } else if s == seq!['2'] {
        Some(PtkpStatus::TK1)
    } else if s == seq!['3'] {
        Some(PtkpStatus::TK2)
    } else if s == seq!['4'] {
        Some(PtkpStatus::TK3)
    } else if s == seq!['5'] {
        Some(PtkpStatus::K0)
    } else if s == seq!['6'] {
        Some(PtkpStatus::K1)
    } else if s == seq!['7'] {
        Some(PtkpStatus::K2)
    } else if s == seq!['8'] {
        Some(PtkpStatus::K3)
    } else {
        None
    }
}

/// Decides which PTKP status a selection line denotes, if any.
pub fn ptkp_from_choice(line: &Vec<char>) -> (result: Option<PtkpStatus>)
    ensures
        result == spec_ptkp_choice(line@),
{
    if line.len() != 1 {
        return None;
    }
    let status = match line[0] {
        '1' => Some(PtkpStatus::TK0),
        '2' => Some(PtkpStatus::TK1),
        '3' => Some(PtkpStatus::TK2),
        '4' => Some(PtkpStatus::TK3),
        '5' => Some(PtkpStatus::K0),
        '6' => Some(PtkpStatus::K1),
        '7' => Some(PtkpStatus::K2),
        '8' => Some(PtkpStatus::K3),
        _ => None,
    };
    proof {
        assert(line@.len() == 1);
        if line@[0] == '1' {
            assert(line@ =~= seq!['1']);
        }
        if line@[0] == '2' {
            assert(line@ =~= seq!['2']);
        }
        if line@[0] == '3' {
            assert(line@ =~= seq!['3']);
        }
        if line@[0] == '4' {
            assert(line@ =~= seq!['4']);
        }
        if line@[0] == '5' {
            assert(line@ =~= seq!['5']);
        }
        if line@[0] == '6' {
            assert(line@ =~= seq!['6']);
        }
        if line@[0] == '7' {
            assert(line@ =~= seq!['7']);
        }
        if line@[0] == '8' {
            assert(line@ =~= seq!['8']);
        }
    }
    status
}

/// Maps a method selection line to its calculation method: "1" is Gross,
/// "2" is Gross-Up.
pub open spec fn spec_method_choice(s: Seq<char>) -> Option<CalculationMethod> {
    if s == seq!['1'] {
        Some(CalculationMethod::Gross)
    } else if s == seq!['2'] {
        Some(CalculationMethod::GrossUp)
    } else {
        None
    }
}

/// Decides which calculation method a selection line denotes, if any.
pub fn method_from_choice(line: &Vec<char>) -> (result: Option<CalculationMethod>)
    ensures
        result == spec_method_choice(line@),
{
    if line.len() != 1 {
        return None;
    }
    let method = match line[0] {
        '1' => Some(CalculationMethod::Gross),
        '2' => Some(CalculationMethod::GrossUp),
        _ => None,
    };
    proof {
        if line@[0] == '1' {
            assert(line@ =~= seq!['1']);
        }
        if line@[0] == '2' {
            assert(line@ =~= seq!['2']);
        }
    }
    method
}

} // verus!
