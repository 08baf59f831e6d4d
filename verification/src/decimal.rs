//! Quotients of unsigned integers as rounded decimal text, computed by
//! `bigdecimal`.

use vstd::prelude::*;
use bigdecimal::BigDecimal;

verus! {

/// The text that `bigdecimal` prints for `numerator / denominator` after
/// rounding it to `places` digits behind the decimal point. The precision of
/// its division, the way it rounds a tie and its notation are fixed when
/// `bigdecimal` is built.
pub uninterp spec fn rounded_quotient_text(numerator: nat, denominator: nat, places: nat) -> Seq<
    char,
>;

/// Divides two `BigDecimal` values made from the arguments (`Div` for
/// `BigDecimal`), rounds the quotient with `BigDecimal::round` and prints it
/// with its `Display`. Trusted: the text depends on the three arguments
/// alone. Nothing is claimed of its digits. The division panics on a zero
/// divisor, which `requires` leaves out.
#[verifier::external_body]
pub(crate) fn rounded_quotient(numerator: u128, denominator: u128, places: u8) -> (text: String)
    requires
        denominator != 0,
    ensures
        text@ == rounded_quotient_text(numerator as nat, denominator as nat, places as nat),
{
    let quotient = BigDecimal::from(numerator) / BigDecimal::from(denominator);
    quotient.round(i64::from(places)).to_string()
}

} // verus!
