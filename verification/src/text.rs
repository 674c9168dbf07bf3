//! Small pieces of text that messages are made of.

use vstd::prelude::*;

verus! {

/// The character of a decimal digit.
pub open spec fn digit(d: nat) -> char
    recommends
        d < 10,
{
    (0x30 + d) as char
}

/// The decimal numeral of a natural number, without leading zeros.
pub open spec fn decimal(n: nat) -> Seq<char>
    decreases n,
{
    if n < 10 {
        seq![digit(n)]
    } else {
        decimal(n / 10).push(digit(n % 10))
    }
}

/// Makes the string of one character with std's `String::from`.
#[verifier::external_body]
pub(crate) fn string_of_char(c: char) -> (s: String)
    ensures
        s@ == seq![c],
{
    String::from(c)
}

/// The decimal numeral of a number, as text.
pub fn decimal_string(n: usize) -> (s: String)
    ensures
        s@ == decimal(n as nat),
    decreases n,
{
    let last: u8 = (n % 10) as u8;
    let c: char = (0x30u8 + last) as char;
    if n < 10 {
        string_of_char(c)
    } else {
        let head = decimal_string(n / 10);
        let s = head.concat(string_of_char(c).as_str());
        proof {
            assert(decimal((n / 10) as nat) + seq![c] =~= decimal((n / 10) as nat).push(c));
        }
        s
    }
}

} // verus!
