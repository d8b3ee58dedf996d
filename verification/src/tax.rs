//! The PPh 21 tax formulas: the single-rate Gross calculation and the
//! iterative Gross-Up fixed-point procedure.

use vstd::arithmetic::div_mod::{lemma_div_is_ordered, lemma_div_is_ordered_by_denominator};
use vstd::arithmetic::mul::{lemma_mul_inequality, lemma_mul_upper_bound};
use vstd::prelude::*;

use crate::ptkp::TerCategory;
use crate::ter::{get_ter_rate, lemma_rate_for_bounds, lemma_rate_for_monotone, spec_rate_for};

verus! {

/// Largest monthly income the input collaborator admits: 10^15 rupiah.
pub const MAX_INCOME: i64 = 1_000_000_000_000_000;

/// Safety cap on the Gross-Up re-evaluation loop; the finite bracket tables
/// make it converge in a few steps, so the cap is never the expected exit.
pub const MAX_ITERATIONS: u64 = 10;

/// Who bears the tax: the employee (Gross) or the employer through a
/// taxable allowance (GrossUp).
#[derive(Debug, Clone, Copy, PartialEq, Eq, Structural)]
pub enum CalculationMethod {
    Gross,
    GrossUp,
}

/// Tax owed on `income` at `rate` hundredths of a percent, truncated toward
/// zero: partial rupiah are never owed.
pub open spec fn spec_gross_tax(income: int, rate: int) -> int {
    income * rate / 10000
}

/// The grossed-up total income consistent with a candidate rate: the total
/// whose after-allowance part reproduces `bruto`, truncated to whole rupiah.
pub open spec fn spec_gross_up_total(bruto: int, rate: int) -> int {
    bruto * 10000 / (10000 - rate)
}

/// The `(allowance, tax, rate)` triple the Gross-Up procedure derives once
/// it settles on `rate`.
pub open spec fn spec_gross_up_result(bruto: int, rate: int) -> (int, int, int) {
    let total = spec_gross_up_total(bruto, rate);
    (total - bruto, spec_gross_tax(total, rate), rate)
}

/// The Gross-Up re-evaluation loop with `fuel` iterations left: re-derive the
/// rate from the candidate total until it reproduces itself; when the fuel
/// runs out, fall back to the last candidate rate.
pub open spec fn spec_gross_up_loop(bruto: int, category: TerCategory, rate: int, fuel: nat) -> (
    int,
    int,
    int,
)
    decreases fuel,
{
    if fuel == 0 {
        spec_gross_up_result(bruto, rate)
    } else {
        let new_rate = spec_rate_for(category, spec_gross_up_total(bruto, rate));
        if new_rate == rate {
            spec_gross_up_result(bruto, rate)
        } else {
            spec_gross_up_loop(bruto, category, new_rate, (fuel - 1) as nat)
        }
    }
}

/// The Gross-Up calculation: start from the rate of the plain income and
/// iterate, bounded by `MAX_ITERATIONS`.
pub open spec fn spec_gross_up(bruto: int, category: TerCategory) -> (int, int, int) {
    spec_gross_up_loop(bruto, category, spec_rate_for(category, bruto), MAX_ITERATIONS as nat)
}

/// Whether the loop with `fuel` iterations left reaches a rate that
/// reproduces itself, rather than running out of fuel.
pub open spec fn spec_gross_up_converges_from(
    bruto: int,
    category: TerCategory,
    rate: int,
    fuel: nat,
) -> bool
    decreases fuel,
{
    if fuel == 0 {
        false
    } else {
        let new_rate = spec_rate_for(category, spec_gross_up_total(bruto, rate));
        new_rate == rate || spec_gross_up_converges_from(
            bruto,
            category,
            new_rate,
            (fuel - 1) as nat,
        )
    }
}

/// Whether the Gross-Up calculation converges within its iteration cap.
pub open spec fn spec_gross_up_converges(bruto: int, category: TerCategory) -> bool {
    spec_gross_up_converges_from(
        bruto,
        category,
        spec_rate_for(category, bruto),
        MAX_ITERATIONS as nat,
    )
}

/// Gross method: tax owed on `bruto` at `rate` hundredths of a percent,
/// truncated to whole rupiah.
pub fn calculate_gross(bruto: i64, rate: i64) -> (tax: i64)
    requires
        0 <= bruto,
        0 <= rate < 10000,
    ensures
        tax == spec_gross_tax(bruto as int, rate as int),
        0 <= tax <= bruto,
{
    proof {
        lemma_mul_upper_bound(bruto as int, i64::MAX as int, rate as int, 10000);
    }
    let wide: u128 = (bruto as u128) * (rate as u128) / 10000;
    proof {
        assert((bruto as int) * (rate as int) <= (bruto as int) * 10000) by (nonlinear_arith)
            requires
                0 <= bruto as int,
                0 <= rate as int && rate < 10000;
        lemma_div_is_ordered((bruto as int) * (rate as int), (bruto as int) * 10000, 10000);
        assert((bruto as int) * 10000 / 10000 == bruto as int);
    }
    wide as i64
}

/// A candidate total stays between the income itself (the rate being below
/// 100%) and what the top rate of 34% can gross 10^15 rupiah up to.
proof fn lemma_gross_up_total_bounds(bruto: int, rate: int)
    requires
        0 <= bruto <= MAX_INCOME as int,
        0 <= rate <= 3400,
    ensures
        bruto <= spec_gross_up_total(bruto, rate) <= 1_600_000_000_000_000,
{
    let scaled = bruto * 10000;
    lemma_div_is_ordered_by_denominator(scaled, 10000 - rate, 10000);
    assert(scaled / 10000 == bruto);
    lemma_div_is_ordered_by_denominator(scaled, 6600, 10000 - rate);
    lemma_div_is_ordered(scaled, 10_000_000_000_000_000_000int, 6600);
}

/// The grossed-up total for a candidate rate, `floor(bruto * 100 / (100 - r))`
/// in percent terms, computed exactly in hundredths of a percent.
fn gross_up_total(bruto: i64, rate: i64) -> (total: i64)
    requires
        0 <= bruto <= MAX_INCOME,
        0 <= rate <= 3400,
    ensures
        total == spec_gross_up_total(bruto as int, rate as int),
        bruto <= total,
        total <= 1_600_000_000_000_000,
{
    proof {
        lemma_gross_up_total_bounds(bruto as int, rate as int);
    }
    let divisor: u128 = (10000 - rate) as u128;
    let scaled: u128 = (bruto as u128) * 10000;
    let wide: u128 = scaled / divisor;
    wide as i64
}

/// Grossing up with a higher candidate rate never yields a smaller total.
proof fn lemma_gross_up_total_monotone_in_rate(bruto: int, rate1: int, rate2: int)
    requires
        0 <= bruto,
        0 <= rate1 <= rate2 <= 3400,
    ensures
        spec_gross_up_total(bruto, rate1) <= spec_gross_up_total(bruto, rate2),
{
    lemma_div_is_ordered_by_denominator(bruto * 10000, 10000 - rate2, 10000 - rate1);
}

/// Entered with a candidate rate that its own induced total does not lower,
/// the re-evaluation loop only ever climbs.
proof fn lemma_gross_up_loop_ascending(bruto: int, category: TerCategory, rate: int, fuel: nat)
    requires
        0 <= bruto <= MAX_INCOME as int,
        0 <= rate <= 3400,
        rate <= spec_rate_for(category, spec_gross_up_total(bruto, rate)),
    ensures
        spec_gross_up_loop(bruto, category, rate, fuel).2 >= rate,
    decreases fuel,
{
    if fuel > 0 {
        let total = spec_gross_up_total(bruto, rate);
        lemma_gross_up_total_bounds(bruto, rate);
        let new_rate = spec_rate_for(category, total);
        lemma_rate_for_bounds(category, total);
        if new_rate != rate {
            lemma_gross_up_total_monotone_in_rate(bruto, rate, new_rate);
            lemma_gross_up_total_bounds(bruto, new_rate);
            lemma_rate_for_monotone(category, total, spec_gross_up_total(bruto, new_rate));
            lemma_gross_up_loop_ascending(bruto, category, new_rate, (fuel - 1) as nat);
        }
    }
}

/// Law: the effective rate the Gross-Up procedure returns never lies below
/// the plain income's bracket rate — re-evaluation climbs toward its fixed
/// point, it does not oscillate downward.
pub proof fn lemma_gross_up_rate_non_decreasing(bruto: int, category: TerCategory)
    requires
        0 <= bruto <= MAX_INCOME as int,
    ensures
        spec_gross_up(bruto, category).2 >= spec_rate_for(category, bruto),
{
    let initial = spec_rate_for(category, bruto);
    lemma_rate_for_bounds(category, bruto);
    lemma_gross_up_total_bounds(bruto, initial);
    lemma_rate_for_monotone(category, bruto, spec_gross_up_total(bruto, initial));
    lemma_gross_up_loop_ascending(bruto, category, initial, MAX_ITERATIONS as nat);
}

/// Wherever the re-evaluation loop stops, its result is the triple derived
/// from the rate it stopped at; and when it stops by convergence, that rate
/// reproduces itself under bracket lookup of its own induced total.
proof fn lemma_gross_up_loop_shape(bruto: int, category: TerCategory, rate: int, fuel: nat)
    requires
        0 <= bruto <= MAX_INCOME as int,
        0 <= rate <= 3400,
    ensures
        ({
            let r = spec_gross_up_loop(bruto, category, rate, fuel);
            &&& r == spec_gross_up_result(bruto, r.2)
            &&& 0 <= r.2 <= 3400
            &&& spec_gross_up_converges_from(bruto, category, rate, fuel) ==> spec_rate_for(
                category,
                spec_gross_up_total(bruto, r.2),
            ) == r.2
        }),
    decreases fuel,
{
    if fuel > 0 {
        let total = spec_gross_up_total(bruto, rate);
        lemma_gross_up_total_bounds(bruto, rate);
        let new_rate = spec_rate_for(category, total);
        lemma_rate_for_bounds(category, total);
        if new_rate != rate {
            lemma_gross_up_loop_shape(bruto, category, new_rate, (fuel - 1) as nat);
        }
    }
}

/// Gross-Up method: finds the rate, allowance and total that are mutually
/// consistent by re-applying bracket lookup to the candidate total until the
/// rate reproduces itself, bounded by `MAX_ITERATIONS`; returns
/// `(tunjangan, pph21, rate)` — the tax allowance, the tax on the grossed-up
/// total, and the effective rate in hundredths of a percent.
pub fn calculate_gross_up_with_dynamic_ter(bruto: i64, category: TerCategory) -> (result: (
    i64,
    i64,
    i64,
))
    requires
        0 <= bruto <= MAX_INCOME,
    ensures
        ({
            let (tunjangan, pph21, rate) = result;
            &&& (tunjangan as int, pph21 as int, rate as int) == spec_gross_up(
                bruto as int,
                category,
            )
            &&& 0 <= rate <= 3400
            &&& tunjangan == spec_gross_up_total(bruto as int, rate as int) - bruto
            &&& 0 <= tunjangan
            &&& pph21 == spec_gross_tax(bruto + tunjangan, rate as int)
            &&& 0 <= pph21 <= bruto + tunjangan
            &&& spec_gross_up_converges(bruto as int, category) ==> spec_rate_for(
                category,
                bruto + tunjangan,
            ) == rate
        }),
{
    proof {
        lemma_rate_for_bounds(category, bruto as int);
    }
    let mut rate: i64 = get_ter_rate(category, bruto);
    for i in 0..MAX_ITERATIONS
        invariant
            0 <= bruto <= MAX_INCOME,
            0 <= rate <= 3400,
            spec_gross_up_loop(bruto as int, category, rate as int, (MAX_ITERATIONS - i) as nat)
                == spec_gross_up(bruto as int, category),
            spec_gross_up_converges_from(
                bruto as int,
                category,
                rate as int,
                (MAX_ITERATIONS - i) as nat,
            ) == spec_gross_up_converges(bruto as int, category),
    {
        let total = gross_up_total(bruto, rate);
        let new_rate = get_ter_rate(category, total);
        proof {
            lemma_rate_for_bounds(category, total as int);
        }
        if new_rate == rate {
            let pph21 = calculate_gross(total, rate);
            let tunjangan = total - bruto;
            return (tunjangan, pph21, rate);
        }
        rate = new_rate;
    }
    // Defensive fallback when the cap is exhausted: derive the same
    // quantities from the last candidate rate.
    let total = gross_up_total(bruto, rate);
    let pph21 = calculate_gross(total, rate);
    let tunjangan = total - bruto;
    (tunjangan, pph21, rate)
}

/// Computes `(tunjangan, pph21, rate)` for an income, category and method,
/// dispatching to the Gross or Gross-Up procedure; under Gross there is no
/// allowance and the rate is the plain income's bracket rate.
pub fn calculate_pph21(bruto: i64, category: TerCategory, method: CalculationMethod) -> (result: (
    i64,
    i64,
    i64,
))
    requires
        0 <= bruto <= MAX_INCOME,
    ensures
        method == CalculationMethod::Gross ==> ({
            let (tunjangan, pph21, rate) = result;
            &&& tunjangan == 0
            &&& rate == spec_rate_for(category, bruto as int)
            &&& pph21 == spec_gross_tax(bruto as int, rate as int)
        }),
        method == CalculationMethod::GrossUp ==> (result.0 as int, result.1 as int, result.2 as int)
            == spec_gross_up(bruto as int, category),
{
    match method {
        CalculationMethod::Gross => {
            proof {
                lemma_rate_for_bounds(category, bruto as int);
            }
            let rate = get_ter_rate(category, bruto);
            let pph21 = calculate_gross(bruto, rate);
            (0, pph21, rate)
        },
        CalculationMethod::GrossUp => calculate_gross_up_with_dynamic_ter(bruto, category),
    }
}

/// Law: gross tax is monotonically non-decreasing in the income at a fixed
/// rate.
pub proof fn lemma_gross_tax_monotone(income1: int, income2: int, rate: int)
    requires
        0 <= income1 <= income2,
        0 <= rate,
    ensures
        spec_gross_tax(income1, rate) <= spec_gross_tax(income2, rate),
{
    lemma_mul_inequality(income1, income2, rate);
    lemma_div_is_ordered(income1 * rate, income2 * rate, 10000);
}

/// Law: at any rate below 100% the gross tax never exceeds the income
/// itself, and it is never negative.
pub proof fn lemma_gross_tax_le_income(income: int, rate: int)
    requires
        0 <= income,
        0 <= rate < 10000,
    ensures
        0 <= spec_gross_tax(income, rate) <= income,
{
    assert(0 <= income * rate <= income * 10000) by (nonlinear_arith)
        requires
            0 <= income && 0 <= rate && rate < 10000;
    lemma_div_is_ordered(0, income * rate, 10000);
    lemma_div_is_ordered(income * rate, income * 10000, 10000);
    assert(income * 10000 / 10000 == income);
}

/// Law: when the Gross-Up procedure converges, re-applying bracket lookup to
/// `tunjangan + bruto` — the returned allowance plus the original income —
/// yields exactly the returned effective rate.
pub proof fn lemma_gross_up_fixed_point(bruto: int, category: TerCategory)
    requires
        0 <= bruto <= MAX_INCOME as int,
        spec_gross_up_converges(bruto, category),
    ensures
        ({
            let (tunjangan, pph21, rate) = spec_gross_up(bruto, category);
            spec_rate_for(category, bruto + tunjangan) == rate
        }),
{
    lemma_rate_for_bounds(category, bruto);
    lemma_gross_up_loop_shape(
        bruto,
        category,
        spec_rate_for(category, bruto),
        MAX_ITERATIONS as nat,
    );
}

/// Law: the Gross-Up procedure is deterministic — two calls on identical
/// `(bruto, category)` inputs return identical triples, its result being a
/// function of the inputs alone.
pub proof fn lemma_gross_up_idempotent(
    r1: (i64, i64, i64),
    r2: (i64, i64, i64),
    bruto: i64,
    category: TerCategory,
)
    requires
        (r1.0 as int, r1.1 as int, r1.2 as int) == spec_gross_up(bruto as int, category),
        (r2.0 as int, r2.1 as int, r2.2 as int) == spec_gross_up(bruto as int, category),
    ensures
        r1 == r2,
{
}

} // verus!
