//! Rendering a non-negative rupiah amount as a display string: the digits
//! grouped in threes from the right, separated by periods, behind the
//! currency marker ("Rp 10.000.000").

use vstd::prelude::*;

use vstd::string::StringExecFns;

verus! {

/// The decimal digit character for a value between 0 and 9.
pub open spec fn spec_digit_char(d: int) -> char {
    if d == 0 {
        '0'
    } else if d == 1 {
        '1'
    } else if d == 2 {
        '2'
    } else if d == 3 {
        '3'
    } else if d == 4 {
        '4'
    } else if d == 5 {
        '5'
    } else if d == 6 {
        '6'
    } else if d == 7 {
        '7'
    } else if d == 8 {
        '8'
    } else {
        '9'
    }
}

/// The decimal digit characters of `n`, most significant first, with no
/// leading zeros (zero itself is the single character '0').
pub open spec fn spec_digits(n: nat) -> Seq<char>
    decreases n,
{
    if n < 10 {
        seq![spec_digit_char(n as int)]
    } else {
        spec_digits(n / 10).push(spec_digit_char((n % 10) as int))
    }
}

/// Digit characters grouped in runs of three from the right, the runs
/// separated by periods.
pub open spec fn spec_grouped(s: Seq<char>) -> Seq<char>
    decreases s.len(),
{
    if s.len() <= 3 {
        s
    } else {
        spec_grouped(s.take(s.len() - 3)) + seq!['.'] + s.skip(s.len() - 3)
    }
}

/// The full rendering: currency marker, space, grouped digits.
pub open spec fn spec_format_rupiah(amount: int) -> Seq<char> {
    seq!['R', 'p', ' '] + spec_grouped(spec_digits(amount as nat))
}

/// Relies on String::push: appends the given character to the end of the
/// string.
#[verifier::external_body]
fn push_char(s: &mut String, c: char)
    ensures
        final(s)@ == old(s)@.push(c),
{
    s.push(c);
}

/// The digit character of a value between 0 and 9.
fn digit_char(d: u64) -> (c: char)
    requires
        d <= 9,
    ensures
        c == spec_digit_char(d as int),
{
    match d {
        0 => '0',
        1 => '1',
        2 => '2',
        3 => '3',
        4 => '4',
        5 => '5',
        6 => '6',
        7 => '7',
        8 => '8',
        _ => '9',
    }
}

/// The decimal digits of `n`, most significant first.
fn decimal_digits(n: u64) -> (digits: Vec<char>)
    ensures
        digits@ == spec_digits(n as nat),
    decreases n,
{
    if n < 10 {
        let mut v: Vec<char> = Vec::new();
        v.push(digit_char(n));
        proof {
            assert(v@ =~= spec_digits(n as nat));
        }
        v
    } else {
        let mut v = decimal_digits(n / 10);
        v.push(digit_char(n % 10));
        v
    }
}

/// Copies `digits[..n]` into a string, a period before each complete run of
/// three digits counted from the right.
fn group_digits(digits: &Vec<char>, n: usize) -> (r: String)
    requires
        n <= digits.len(),
    ensures
        r@ == spec_grouped(digits@.take(n as int)),
    decreases n,
{
    if n <= 3 {
        let mut s = String::new();
        let mut i: usize = 0;
        while i < n
            invariant
                i <= n <= digits.len(),
                s@ == digits@.take(i as int),
            decreases n - i,
        {
            push_char(&mut s, digits[i]);
            proof {
                assert(digits@.take(i as int).push(digits@[i as int]) =~= digits@.take(
                    i + 1 as int,
                ));
            }
            i = i + 1;
        }
        s
    } else {
        let mut s = group_digits(digits, n - 3);
        push_char(&mut s, '.');
        push_char(&mut s, digits[n - 3]);
        push_char(&mut s, digits[n - 2]);
        push_char(&mut s, digits[n - 1]);
        proof {
            let t = digits@.take(n as int);
            assert(t.take(n - 3 as int) =~= digits@.take(n - 3 as int));
            assert(s@ =~= spec_grouped(t.take(n - 3 as int)) + seq!['.'] + t.skip(n - 3 as int));
        }
        s
    }
}

/// Renders a non-negative amount of whole rupiah for display: "Rp " followed
/// by the digits grouped in threes from the right and separated by periods;
/// zero renders as "Rp 0".
pub fn format_rupiah(amount: i64) -> (s: String)
    requires
        0 <= amount,
    ensures
        s@ == spec_format_rupiah(amount as int),
{
    let digits = decimal_digits(amount as u64);
    let grouped = group_digits(&digits, digits.len());
    let mut s = "Rp ".to_owned();
    s.append(grouped.as_str());
    proof {
        reveal_strlit("Rp ");
        assert(digits@.take(digits@.len() as int) =~= digits@);
        assert(s@ =~= spec_format_rupiah(amount as int));
    }
    s
}

} // verus!
