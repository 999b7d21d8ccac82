//! Text: names in upper camel case, comparison, and decimal numerals.

use heck::ToUpperCamelCase;
use vstd::prelude::*;
use vstd::string::*;

verus! {

/// The upper camel case form of a text, as the `heck` crate computes it:
/// words are split at non-alphanumeric characters and at case changes, each
/// word is capitalised, and the words are joined without a separator.
pub uninterp spec fn upper_camel_case(s: Seq<char>) -> Seq<char>;

/// Calls `heck::ToUpperCamelCase::to_upper_camel_case` on a string slice.
/// The contract only gives the result its name: the conversion is a function
/// of the characters of `s` and of nothing else.
#[verifier::external_body]
fn heck_upper_camel_case(s: &str) -> (out: String)
    ensures
        out@ == upper_camel_case(s@),
{
    s.to_upper_camel_case()
}

/// Converts a snake case or otherwise separated name to upper camel case
/// (`demo_item` becomes `DemoItem`).
pub fn to_camel(s: &str) -> (out: String)
    ensures
        out@ == upper_camel_case(s@),
{
    heck_upper_camel_case(s)
}

/// Whether two texts hold the same characters.
pub fn same_text(a: &str, b: &str) -> (same: bool)
    ensures
        same == (a@ == b@),
{
    let x = String::from_str(a);
    let y = String::from_str(b);
    x == y
}

/// The decimal digit `d` as text.
pub open spec fn digit_text(d: nat) -> Seq<char> {
    if d == 0 {
        "0"@
    } else if d == 1 {
        "1"@
    } else if d == 2 {
        "2"@
    } else if d == 3 {
        "3"@
    } else if d == 4 {
        "4"@
    } else if d == 5 {
        "5"@
    } else if d == 6 {
        "6"@
    } else if d == 7 {
        "7"@
    } else if d == 8 {
        "8"@
    } else {
        "9"@
    }
}

/// The decimal numeral of a natural number: its digits, the most significant
/// first, without leading zeros.
pub open spec fn decimal_text(n: nat) -> Seq<char>
    decreases n,
{
    if n < 10 {
        digit_text(n)
    } else {
        decimal_text(n / 10) + digit_text(n % 10)
    }
}

/// The decimal numeral of an integer: that of its magnitude, after a minus
/// sign where the integer is negative.
pub open spec fn integer_text(i: int) -> Seq<char> {
    if i < 0 {
        "-"@ + decimal_text((-i) as nat)
    } else {
        decimal_text(i as nat)
    }
}

/// The decimal digit `d` as text.
fn digit(d: u64) -> (text: &'static str)
    requires
        d < 10,
    ensures
        text@ == digit_text(d as nat),
{
    if d == 0 {
        "0"
    } else if d == 1 {
        "1"
    } else if d == 2 {
        "2"
    } else if d == 3 {
        "3"
    } else if d == 4 {
        "4"
    } else if d == 5 {
        "5"
    } else if d == 6 {
        "6"
    } else if d == 7 {
        "7"
    } else if d == 8 {
        "8"
    } else {
        "9"
    }
}

/// Writes a number as its decimal numeral.
pub fn decimal(n: u64) -> (out: String)
    ensures
        out@ == decimal_text(n as nat),
{
    let mut out = String::from_str(digit(n % 10));
    let mut rest: u64 = n / 10;
    while rest > 0
        invariant
            decimal_text(n as nat) == if rest == 0 {
                out@
            } else {
                decimal_text(rest as nat) + out@
            },
        decreases rest,
    {
        let ghost low = out@;
        out = String::from_str(digit(rest % 10)).concat(out.as_str());
        proof {
            let d = digit_text((rest % 10) as nat);
            assert((decimal_text((rest / 10) as nat) + d) + low =~= decimal_text(
                (rest / 10) as nat,
            ) + (d + low));
        }
        rest = rest / 10;
    }
    out
}

/// Writes an integer as its decimal numeral, with a minus sign where it is
/// negative.
pub fn integer(i: i64) -> (out: String)
    ensures
        out@ == integer_text(i as int),
{
    if i < 0 {
        let magnitude: u64 = (-(i + 1)) as u64 + 1;
        String::from_str("-").concat(decimal(magnitude).as_str())
    } else {
        decimal(i as u64)
    }
}

/// Pushing onto a vector pushes the element's view onto the vector's deep view.
pub proof fn lemma_push_deep_view<T: DeepView>(before: Vec<T>, after: Vec<T>, last: T)
    requires
        after@ == before@.push(last),
    ensures
        after.deep_view() == before.deep_view().push(last.deep_view()),
{
    assert(after.deep_view() =~= before.deep_view().push(last.deep_view()));
}

} // verus!
