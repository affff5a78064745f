use vstd::prelude::*;
use vstd::string::*;
use crate::metrics::TypingResults;

verus! {

/// The character of a decimal digit.
pub open spec fn digit_char(d: nat) -> char {
    if d == 0 {
        '0'
    } else if d == 1 {
        '1'
    } else if d == 2 {
        '2'
    } else if d == 3 {
        '3'
    } else if d == 4 {
        '4'
    } else if d == 5 {
        '5'
    } else if d == 6 {
        '6'
    } else if d == 7 {
        '7'
    } else if d == 8 {
        '8'
    } else {
        '9'
    }
}

/// The decimal digits of `n`, most significant first, without leading zeros.
pub open spec fn decimal(n: nat) -> Seq<char>
    decreases n,
{
    if n < 10 {
        seq![digit_char(n)]
    } else {
        decimal(n / 10).push(digit_char(n % 10))
    }
}

/// Relies on the `Display` of `u128`, through `ToString`: its decimal digits,
/// without sign, padding or separators.
#[verifier::external_body]
fn decimal_string(n: u128) -> (r: String)
    ensures
        r@ == decimal(n as nat),
{
    n.to_string()
}

/// A count in hundredths written with two decimals: `8750` is `87.50`.
pub open spec fn two_decimals(h: nat) -> Seq<char> {
    decimal(h / 100) + seq!['.'] + if h % 100 < 10 {
        seq!['0'] + decimal(h % 100)
    } else {
        decimal(h % 100)
    }
}

/// Writes a count of hundredths with two decimals.
pub fn format_hundredths(h: u128) -> (r: String)
    ensures
        r@ == two_decimals(h as nat),
{
    let mut r = decimal_string(h / 100);
    let point = ".";
    proof {
        reveal_strlit(".");
    }
    r.append(point);
    if h % 100 < 10 {
        let zero = "0";
        proof {
            reveal_strlit("0");
        }
        r.append(zero);
    }
    let tail = decimal_string(h % 100);
    r.append(tail.as_str());
    assert(r@ =~= two_decimals(h as nat));
    r
}

/// The net words per minute as shown in the closing banner: `87.50 ppm`.
pub open spec fn wpm_text(results: TypingResults) -> Seq<char> {
    two_decimals(results.wpm_hundredths as nat) + seq![' ', 'p', 'p', 'm']
}

/// The text of the closing banner.
pub fn wpm_banner_text(results: &TypingResults) -> (r: String)
    ensures
        r@ == wpm_text(*results),
{
    let mut r = format_hundredths(results.wpm_hundredths);
    let unit = " ppm";
    proof {
        reveal_strlit(" ppm");
    }
    r.append(unit);
    assert(r@ =~= wpm_text(*results));
    r
}

/// The accuracy and character counts line, e.g. `83.33% ACC      :      Letras
/// escritas: 300 => ✓ 250 | ✕ 50`.
pub open spec fn summary_text(results: TypingResults) -> Seq<char> {
    two_decimals(results.accuracy_basis_points as nat) + "% ACC      :      Letras escritas: "@
        + decimal(results.characters_typed as nat) + " => ✓ "@ + decimal(
        results.correct_characters as nat,
    ) + " | ✕ "@ + decimal(results.incorrect_characters as nat)
}

/// Writes the accuracy and character counts line.
pub fn summary_line(results: &TypingResults) -> (r: String)
    ensures
        r@ == summary_text(*results),
{
    let mut r = format_hundredths(results.accuracy_basis_points);
    r.append("% ACC      :      Letras escritas: ");
    r.append(decimal_string(results.characters_typed as u128).as_str());
    r.append(" => ✓ ");
    r.append(decimal_string(results.correct_characters as u128).as_str());
    r.append(" | ✕ ");
    r.append(decimal_string(results.incorrect_characters as u128).as_str());
    r
}

/// The raw speed line: raw words per minute and the whole seconds elapsed,
/// e.g. `60.00 puro ppm  em 60s`.
pub open spec fn raw_text(results: TypingResults) -> Seq<char> {
    two_decimals(results.raw_wpm_hundredths as nat) + " puro ppm  em "@ + decimal(
        (results.elapsed_ms / 1000) as nat,
    ) + "s"@
}

/// Writes the raw speed line.
pub fn raw_speed_line(results: &TypingResults) -> (r: String)
    ensures
        r@ == raw_text(*results),
{
    let mut r = format_hundredths(results.raw_wpm_hundredths);
    r.append(" puro ppm  em ");
    r.append(decimal_string((results.elapsed_ms / 1000) as u128).as_str());
    r.append("s");
    r
}

} // verus!
