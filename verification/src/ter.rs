//! Government-published TER bracket tables and the bracket-lookup algorithm.
//!
//! A table is an ascending sequence of `(upper_bound, rate)` pairs: incomes up
//! to and including `upper_bound` take `rate`. Bounds are whole rupiah with an
//! `i64::MAX` sentinel terminating each table, so every non-negative income
//! matches some entry. Rates are hundredths of a percent (`25` is 0.25%).

use vstd::prelude::*;

use crate::ptkp::TerCategory;

verus! {

/// Category A brackets (status TK/0, TK/1 or K/0).
pub open spec fn spec_table_a() -> Seq<(i64, i64)> {
    seq![
        (5_400_000, 0),
        (5_650_000, 25),
        (5_950_000, 50),
        (6_300_000, 75),
        (6_750_000, 100),
        (7_500_000, 125),
        (8_550_000, 150),
        (9_650_000, 175),
        (10_050_000, 200),
        (10_350_000, 225),
        (10_700_000, 250),
        (11_050_000, 300),
        (11_600_000, 350),
        (12_500_000, 400),
        (13_750_000, 500),
        (15_100_000, 600),
        (16_950_000, 700),
        (19_750_000, 800),
        (24_150_000, 900),
        (26_450_000, 1000),
        (28_000_000, 1100),
        (30_050_000, 1200),
        (32_400_000, 1300),
        (35_400_000, 1400),
        (39_100_000, 1500),
        (43_850_000, 1600),
        (47_800_000, 1700),
        (51_400_000, 1800),
        (56_300_000, 1900),
        (62_200_000, 2000),
        (68_600_000, 2100),
        (77_500_000, 2200),
        (89_000_000, 2300),
        (103_000_000, 2400),
        (125_000_000, 2500),
        (157_000_000, 2600),
        (206_000_000, 2700),
        (337_000_000, 2800),
        (454_000_000, 2900),
        (550_000_000, 3000),
        (695_000_000, 3100),
        (910_000_000, 3200),
        (1_400_000_000, 3300),
        (i64::MAX, 3400),
    ]
}

/// Category B brackets (status TK/2, TK/3, K/1 or K/2).
pub open spec fn spec_table_b() -> Seq<(i64, i64)> {
    seq![
        (6_200_000, 0),
        (6_500_000, 25),
        (6_850_000, 50),
        (7_300_000, 75),
        (7_700_000, 100),
        (8_300_000, 125),
        (9_200_000, 150),
        (10_750_000, 175),
        (11_250_000, 200),
        (11_600_000, 225),
        (12_050_000, 250),
        (12_500_000, 300),
        (13_050_000, 350),
        (14_000_000, 400),
        (15_550_000, 500),
        (17_050_000, 600),
        (19_500_000, 700),
        (22_700_000, 800),
        (26_600_000, 900),
        (28_100_000, 1000),
        (30_100_000, 1100),
        (32_600_000, 1200),
        (35_400_000, 1300),
        (38_900_000, 1400),
        (43_000_000, 1500),
        (47_400_000, 1600),
        (51_200_000, 1700),
        (55_800_000, 1800),
        (61_400_000, 1900),
        (68_000_000, 2000),
        (74_500_000, 2100),
        (83_200_000, 2200),
        (95_000_000, 2300),
        (110_000_000, 2400),
        (134_000_000, 2500),
        (169_000_000, 2600),
        (221_000_000, 2700),
        (390_000_000, 2800),
        (463_000_000, 2900),
        (561_000_000, 3000),
        (709_000_000, 3100),
        (965_000_000, 3200),
        (1_405_000_000, 3300),
        (i64::MAX, 3400),
    ]
}

/// Category C brackets (status K/3).
pub open spec fn spec_table_c() -> Seq<(i64, i64)> {
    seq![
        (6_600_000, 0),
        (6_950_000, 25),
        (7_350_000, 50),
        (7_800_000, 75),
        (8_250_000, 100),
        (8_850_000, 125),
        (9_800_000, 150),
        (10_950_000, 175),
        (11_200_000, 200),
        (12_050_000, 225),
        (12_950_000, 250),
        (14_150_000, 300),
        (15_550_000, 350),
        (17_050_000, 400),
        (19_000_000, 500),
        (21_100_000, 600),
        (24_000_000, 700),
        (26_400_000, 800),
        (28_850_000, 900),
        (31_450_000, 1000),
        (34_050_000, 1100),
        (36_700_000, 1200),
        (39_650_000, 1300),
        (43_100_000, 1400),
        (47_100_000, 1500),
        (51_300_000, 1600),
        (55_700_000, 1700),
        (60_600_000, 1800),
        (66_700_000, 1900),
        (74_500_000, 2000),
        (83_200_000, 2100),
        (93_000_000, 2200),
        (109_000_000, 2300),
        (129_000_000, 2400),
        (163_000_000, 2500),
        (211_000_000, 2600),
        (374_000_000, 2700),
        (459_000_000, 2800),
        (555_000_000, 2900),
        (704_000_000, 3000),
        (957_000_000, 3100),
        (i64::MAX, 3200),
    ]
}

/// The bracket table of a category.
pub open spec fn spec_table(category: TerCategory) -> Seq<(i64, i64)> {
    match category {
        TerCategory::A => spec_table_a(),
        TerCategory::B => spec_table_b(),
        TerCategory::C => spec_table_c(),
    }
}

/// A well-formed bracket table: non-empty, sentinel-terminated, bounds
/// strictly ascending, rates non-decreasing and strictly below 100%.
pub open spec fn table_wf(t: Seq<(i64, i64)>) -> bool {
    &&& t.len() > 0
    &&& t.last().0 == i64::MAX
    &&& forall|i: int, j: int| 0 <= i < j < t.len() ==> t[i].0 < t[j].0
    &&& forall|i: int, j: int| 0 <= i <= j < t.len() ==> t[i].1 <= t[j].1
    &&& forall|i: int| 0 <= i < t.len() ==> 0 <= #[trigger] t[i].1 < 10000
}

/// Every bracket table of this crate is well formed.
pub proof fn lemma_table_wf(category: TerCategory)
    ensures
        table_wf(spec_table(category)),
{
    let t = spec_table(category);
    assert forall|i: int, j: int| 0 <= i < j < t.len() implies t[i].0 < t[j].0 by {
        assert(t[i].0 < t[j].0);
    }
    assert forall|i: int, j: int| 0 <= i <= j < t.len() implies t[i].1 <= t[j].1 by {
        assert(t[i].1 <= t[j].1);
    }
}

/// The rate of the first entry at or after position `i` whose bound covers
/// `income`; scanning a well-formed table from 0 always finds one.
pub open spec fn spec_rate_from(t: Seq<(i64, i64)>, income: int, i: int) -> int
    decreases t.len() - i,
{
    if i < 0 || i >= t.len() {
        0
    } else if income <= t[i].0 {
        t[i].1 as int
    } else {
        spec_rate_from(t, income, i + 1)
    }
}

/// The applicable TER rate for an income under a category, in hundredths of
/// a percent: the rate of the first table entry whose upper bound is at
/// least `income` (boundary incomes take that bracket, not the next).
pub open spec fn spec_rate_for(category: TerCategory, income: int) -> int {
    spec_rate_from(spec_table(category), income, 0)
}

/// The scan starting at `i` stops at the first entry whose bound covers
/// `income`; such an entry exists because of the sentinel.
proof fn lemma_rate_from_index(t: Seq<(i64, i64)>, income: int, i: int)
    requires
        t.len() > 0,
        t.last().0 == i64::MAX,
        0 <= i < t.len(),
        income <= i64::MAX,
    ensures
        exists|k: int|
            i <= k < t.len() && income <= #[trigger] t[k].0 && (forall|j: int|
                i <= j < k ==> t[j].0 < income) && spec_rate_from(t, income, i) == t[k].1,
    decreases t.len() - i,
{
    if income <= t[i].0 {
        assert(income <= t[i].0 && (forall|j: int| i <= j < i ==> t[j].0 < income)
            && spec_rate_from(t, income, i) == t[i].1);
    } else {
        lemma_rate_from_index(t, income, i + 1);
        let k = choose|k: int|
            i + 1 <= k < t.len() && income <= #[trigger] t[k].0 && (forall|j: int|
                i + 1 <= j < k ==> t[j].0 < income) && spec_rate_from(t, income, i + 1) == t[k].1;
        assert(income <= t[k].0 && (forall|j: int| i <= j < k ==> t[j].0 < income)
            && spec_rate_from(t, income, i) == t[k].1);
    }
}

/// Bracket lookup returns the rate of the first — and, the bounds being
/// ascending, the smallest — table entry whose upper bound is at least the
/// income; an income exactly on a bound takes that bracket, not the next.
pub proof fn lemma_rate_for_first_match(category: TerCategory, income: int)
    requires
        0 <= income <= i64::MAX,
    ensures
        exists|k: int|
            0 <= k < spec_table(category).len() && income <= #[trigger] spec_table(
                category,
            )[k].0 && (forall|j: int| 0 <= j < k ==> spec_table(category)[j].0 < income) && (
            forall|m: int|
                0 <= m < spec_table(category).len() && income <= #[trigger] spec_table(
                    category,
                )[m].0 ==> spec_table(category)[k].0 <= spec_table(category)[m].0)
                && spec_rate_for(category, income) == spec_table(category)[k].1,
{
    let t = spec_table(category);
    lemma_table_wf(category);
    lemma_rate_from_index(t, income, 0);
    let k = choose|k: int|
        0 <= k < t.len() && income <= #[trigger] t[k].0 && (forall|j: int|
            0 <= j < k ==> t[j].0 < income) && spec_rate_from(t, income, 0) == t[k].1;
    assert forall|m: int| 0 <= m < t.len() && income <= #[trigger] t[m].0 implies t[k].0
        <= t[m].0 by {
        if m < k {
            assert(t[m].0 < income);
        }
    }
}

/// Monotonicity of the bracket tables: the applicable rate never decreases
/// as the income increases.
pub proof fn lemma_rate_for_monotone(category: TerCategory, income1: int, income2: int)
    requires
        0 <= income1 <= income2 <= i64::MAX,
    ensures
        spec_rate_for(category, income1) <= spec_rate_for(category, income2),
{
    let t = spec_table(category);
    lemma_table_wf(category);
    lemma_rate_from_index(t, income1, 0);
    lemma_rate_from_index(t, income2, 0);
    let k1 = choose|k: int|
        0 <= k < t.len() && income1 <= #[trigger] t[k].0 && (forall|j: int|
            0 <= j < k ==> t[j].0 < income1) && spec_rate_from(t, income1, 0) == t[k].1;
    let k2 = choose|k: int|
        0 <= k < t.len() && income2 <= #[trigger] t[k].0 && (forall|j: int|
            0 <= j < k ==> t[j].0 < income2) && spec_rate_from(t, income2, 0) == t[k].1;
    if k2 < k1 {
        assert(t[k2].0 < income1);
    }
    assert(t[k1].1 <= t[k2].1);
}

/// On a well-formed table the scan's result lies between zero and the
/// table's top (sentinel) rate.
proof fn lemma_rate_from_le_top(t: Seq<(i64, i64)>, income: int)
    requires
        table_wf(t),
        0 <= income <= i64::MAX,
    ensures
        0 <= spec_rate_from(t, income, 0) <= t.last().1,
{
    lemma_rate_from_index(t, income, 0);
    let k = choose|k: int|
        0 <= k < t.len() && income <= #[trigger] t[k].0 && (forall|j: int|
            0 <= j < k ==> t[j].0 < income) && spec_rate_from(t, income, 0) == t[k].1;
    assert(t[k].1 <= t[t.len() - 1].1);
}

/// The rate a lookup returns lies in the table, so it is non-negative, never
/// exceeds the tables' top rate of 34%, and stays strictly below 100%.
pub proof fn lemma_rate_for_bounds(category: TerCategory, income: int)
    requires
        0 <= income <= i64::MAX,
    ensures
        0 <= spec_rate_for(category, income) <= 3400,
{
    lemma_table_wf(category);
    lemma_rate_from_le_top(spec_table(category), income);
    match category {
        TerCategory::A => assert(spec_table_a().last().1 == 3400),
        TerCategory::B => assert(spec_table_b().last().1 == 3400),
        TerCategory::C => assert(spec_table_c().last().1 == 3200),
    }
}

/// The bracket table of a category as a vector, for the scanning lookup.
pub fn ter_table(category: TerCategory) -> (t: Vec<(i64, i64)>)
    ensures
        t@ == spec_table(category),
{
    match category {
        TerCategory::A => {
            let t: Vec<(i64, i64)> = vec![
                (5_400_000, 0),
                (5_650_000, 25),
                (5_950_000, 50),
                (6_300_000, 75),
                (6_750_000, 100),
                (7_500_000, 125),
                (8_550_000, 150),
                (9_650_000, 175),
                (10_050_000, 200),
                (10_350_000, 225),
                (10_700_000, 250),
                (11_050_000, 300),
                (11_600_000, 350),
                (12_500_000, 400),
                (13_750_000, 500),
                (15_100_000, 600),
                (16_950_000, 700),
                (19_750_000, 800),
                (24_150_000, 900),
                (26_450_000, 1000),
                (28_000_000, 1100),
                (30_050_000, 1200),
                (32_400_000, 1300),
                (35_400_000, 1400),
                (39_100_000, 1500),
                (43_850_000, 1600),
                (47_800_000, 1700),
                (51_400_000, 1800),
                (56_300_000, 1900),
                (62_200_000, 2000),
                (68_600_000, 2100),
                (77_500_000, 2200),
                (89_000_000, 2300),
                (103_000_000, 2400),
                (125_000_000, 2500),
                (157_000_000, 2600),
                (206_000_000, 2700),
                (337_000_000, 2800),
                (454_000_000, 2900),
                (550_000_000, 3000),
                (695_000_000, 3100),
                (910_000_000, 3200),
                (1_400_000_000, 3300),
                (i64::MAX, 3400),
            ];
            proof {
                assert(t@ =~= spec_table_a());
            }
            t
        },
        TerCategory::B => {
            let t: Vec<(i64, i64)> = vec![
                (6_200_000, 0),
                (6_500_000, 25),
                (6_850_000, 50),
                (7_300_000, 75),
                (7_700_000, 100),
                (8_300_000, 125),
                (9_200_000, 150),
                (10_750_000, 175),
                (11_250_000, 200),
                (11_600_000, 225),
                (12_050_000, 250),
                (12_500_000, 300),
                (13_050_000, 350),
                (14_000_000, 400),
                (15_550_000, 500),
                (17_050_000, 600),
                (19_500_000, 700),
                (22_700_000, 800),
                (26_600_000, 900),
                (28_100_000, 1000),
                (30_100_000, 1100),
                (32_600_000, 1200),
                (35_400_000, 1300),
                (38_900_000, 1400),
                (43_000_000, 1500),
                (47_400_000, 1600),
                (51_200_000, 1700),
                (55_800_000, 1800),
                (61_400_000, 1900),
                (68_000_000, 2000),
                (74_500_000, 2100),
                (83_200_000, 2200),
                (95_000_000, 2300),
                (110_000_000, 2400),
                (134_000_000, 2500),
                (169_000_000, 2600),
                (221_000_000, 2700),
                (390_000_000, 2800),
                (463_000_000, 2900),
                (561_000_000, 3000),
                (709_000_000, 3100),
                (965_000_000, 3200),
                (1_405_000_000, 3300),
                (i64::MAX, 3400),
            ];
            proof {
                assert(t@ =~= spec_table_b());
            }
            t
        },
        TerCategory::C => {
            let t: Vec<(i64, i64)> = vec![
                (6_600_000, 0),
                (6_950_000, 25),
                (7_350_000, 50),
                (7_800_000, 75),
                (8_250_000, 100),
                (8_850_000, 125),
                (9_800_000, 150),
                (10_950_000, 175),
                (11_200_000, 200),
                (12_050_000, 225),
                (12_950_000, 250),
                (14_150_000, 300),
                (15_550_000, 350),
                (17_050_000, 400),
                (19_000_000, 500),
                (21_100_000, 600),
                (24_000_000, 700),
                (26_400_000, 800),
                (28_850_000, 900),
                (31_450_000, 1000),
                (34_050_000, 1100),
                (36_700_000, 1200),
                (39_650_000, 1300),
                (43_100_000, 1400),
                (47_100_000, 1500),
                (51_300_000, 1600),
                (55_700_000, 1700),
                (60_600_000, 1800),
                (66_700_000, 1900),
                (74_500_000, 2000),
                (83_200_000, 2100),
                (93_000_000, 2200),
                (109_000_000, 2300),
                (129_000_000, 2400),
                (163_000_000, 2500),
                (211_000_000, 2600),
                (374_000_000, 2700),
                (459_000_000, 2800),
                (555_000_000, 2900),
                (704_000_000, 3000),
                (957_000_000, 3100),
                (i64::MAX, 3200),
            ];
            proof {
                assert(t@ =~= spec_table_c());
            }
            t
        },
    }
}

/// Bracket lookup: scans the category's table in ascending order and returns
/// the rate of the first entry whose upper bound is at least `bruto`.
pub fn get_ter_rate(category: TerCategory, bruto: i64) -> (rate: i64)
    requires
        0 <= bruto,
    ensures
        rate == spec_rate_for(category, bruto as int),
        exists|k: int|
            0 <= k < spec_table(category).len() && bruto <= #[trigger] spec_table(category)[k].0
                && (forall|j: int| 0 <= j < k ==> spec_table(category)[j].0 < bruto) && rate
                == spec_table(category)[k].1,
{
    let table = ter_table(category);
    proof {
        lemma_table_wf(category);
    }
    let n = table.len();
    for i in 0..n
        invariant
            table@ == spec_table(category),
            n == table@.len(),
            table_wf(table@),
            0 <= bruto,
            forall|j: int| 0 <= j < i ==> #[trigger] table@[j].0 < bruto,
            spec_rate_for(category, bruto as int) == spec_rate_from(table@, bruto as int, i as int),
    {
        let (max_income, entry_rate) = table[i];
        if bruto <= max_income {
            return entry_rate;
        }
    }
    // Unreachable: the sentinel bound covers every income.
    proof {
        assert(table@.last().0 < bruto);
        assert(false);
    }
    table[n - 1].1
}

} // verus!
