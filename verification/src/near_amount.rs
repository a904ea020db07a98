//! Amounts of NEAR as near-token shows and reads them.
use crate::text::{decimal_text, first_word, first_word_of, trimmed};
use near_sdk::NearToken;
use vstd::prelude::*;

verus! {

/// One NEAR in yoctoNEAR, and equally one whole cNEAR: both have 24 decimals.
pub const ONE_NEAR: u128 = 1_000_000_000_000_000_000_000_000;

/// A thousandth of one NEAR, in yoctoNEAR.
pub const ONE_MILLINEAR: u128 = 1_000_000_000_000_000_000_000;

/// `n` in decimal, with zeros before it up to `width` digits.
pub open spec fn padded(n: nat, width: nat) -> Seq<char> {
    let digits = decimal_text(n);
    if digits.len() >= width {
        digits
    } else {
        Seq::new((width - digits.len()) as nat, |i: int| '0') + digits
    }
}

/// `s` without the zeros at its end.
pub open spec fn without_zeros(s: Seq<char>) -> Seq<char>
    decreases s.len(),
{
    if s.len() > 0 && s.last() == '0' {
        without_zeros(s.drop_last())
    } else {
        s
    }
}

/// An amount of yoctoNEAR, shown exactly.
pub open spec fn exact_amount(y: u128) -> Seq<char> {
    if y == 0 {
        "0 NEAR"@
    } else if y <= 1000 {
        decimal_text(y as nat) + " yoctoNEAR"@
    } else if y % ONE_NEAR == 0 {
        decimal_text((y / ONE_NEAR) as nat) + " NEAR"@
    } else {
        decimal_text((y / ONE_NEAR) as nat) + "."@ + without_zeros(
            padded((y % ONE_NEAR) as nat, 24),
        ) + " NEAR"@
    }
}

/// An amount of yoctoNEAR, rounded up to two or three decimal places of NEAR.
pub open spec fn rounded_amount(y: u128) -> Seq<char> {
    if y == 0 {
        "0 NEAR"@
    } else if y < ONE_MILLINEAR {
        "<0.001 NEAR"@
    } else if y <= 999 * ONE_MILLINEAR {
        "0."@ + padded(((y + ONE_MILLINEAR - 1) / ONE_MILLINEAR as int) as nat, 3) + " NEAR"@
    } else {
        let up = if y + 10 * ONE_MILLINEAR - 1 <= u128::MAX {
            y + 10 * ONE_MILLINEAR - 1
        } else {
            u128::MAX as int
        };
        let cents = up / (10 * ONE_MILLINEAR) as int;
        decimal_text((cents / 100) as nat) + "."@ + padded((cents % 100) as nat, 2) + " NEAR"@
    }
}

/// What `text` is worth in yoctoNEAR, as near-token reads a number with a unit; what it says of the
/// text where that is no such number or does not fit.
pub uninterp spec fn read_amount(text: Seq<char>) -> Result<u128, Seq<char>>;

/// The view of what was read.
pub open spec fn amount_view(r: Result<u128, String>) -> Result<u128, Seq<char>> {
    match r {
        Ok(yocto) => Ok(yocto),
        Err(fault) => Err(fault@),
    }
}

/// Calls `NearToken::exact_amount_display`.
#[verifier::external_body]
pub(crate) fn exact_amount_display(yocto: u128) -> (r: String)
    ensures
        r@ == exact_amount(yocto),
{
    NearToken::from_yoctonear(yocto).exact_amount_display()
}

/// Calls `NearToken`'s `Display`, which rounds up.
#[verifier::external_body]
pub(crate) fn rounded_amount_display(yocto: u128) -> (r: String)
    ensures
        r@ == rounded_amount(yocto),
{
    NearToken::from_yoctonear(yocto).to_string()
}

/// Calls `NearToken`'s `FromStr`, such as on `10 NEAR` or `5 yoctoNEAR`.
///
/// It looks the unit up at a position of the whole text in the trimmed text, and so panics on some
/// texts with whitespace at the start: only trimmed text is read.
#[verifier::external_body]
pub(crate) fn parse_amount(text: &str) -> (r: Result<u128, String>)
    requires
        trimmed(text@) == text@,
    ensures
        amount_view(r) == read_amount(text@),
{
    match text.parse::<NearToken>() {
        Ok(amount) => Ok(amount.as_yoctonear()),
        Err(fault) => Err(fault.to_string()),
    }
}

/// An amount of NEAR.
#[derive(Clone, Copy, PartialEq, Eq, Structural, Debug)]
pub struct TokenAmount {
    /// The amount in yoctoNEAR.
    pub yocto: u128,
}

/// The bare number of an amount, such as a command line takes it: the first word of what
/// [`exact_amount_display`] shows.
pub fn near_amount_arg(yocto: u128) -> (r: String)
    ensures
        r@ == first_word_of(exact_amount(yocto)),
{
    let shown: String = exact_amount_display(yocto);
    first_word(shown.as_str()).to_owned()
}

} // verus!
