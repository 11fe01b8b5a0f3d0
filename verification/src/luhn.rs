//! The Luhn checksum over sequences of decimal digits.
//!
//! Positions count from zero at the left end. A digit at an odd position counts double,
//! less nine once the double passes nine; a digit at an even position counts as it is.
//! A full sequence is valid when these weights add up to a multiple of ten.

use crate::digits::{all_digits, text_digits, DigitSequence};
use vstd::prelude::*;

verus! {

/// How many digits a device identifier has, its check digit included.
pub const DEVICE_IDENTIFIER_WIDTH: usize = 15;

/// What the digit `d` adds to the weighted sum when it stands at `position`.
pub open spec fn weighted_digit(position: int, d: int) -> int {
    if position % 2 == 1 {
        if 2 * d > 9 {
            2 * d - 9
        } else {
            2 * d
        }
    } else {
        d
    }
}

/// The sum of the weights of all of `digits`.
pub open spec fn weighted_sum(digits: Seq<u8>) -> int
    decreases digits.len(),
{
    if digits.len() == 0 {
        0
    } else {
        weighted_sum(digits.drop_last()) + weighted_digit(
            digits.len() - 1,
            digits.last() as int,
        )
    }
}

/// The digit that, put at the end of `digits`, brings the weighted sum to a multiple of
/// ten when it stands at an even position.
pub open spec fn check_digit(digits: Seq<u8>) -> int {
    (10 - weighted_sum(digits) % 10) % 10
}

/// Whether `full`, check digit included, has the width of a device identifier and a
/// weighted sum that is a multiple of ten.
pub open spec fn luhn_valid(full: Seq<u8>) -> bool {
    full.len() == DEVICE_IDENTIFIER_WIDTH && weighted_sum(full) % 10 == 0
}

/// The weighted sum grows by the weight of a digit put at the end.
pub proof fn lemma_weighted_sum_push(digits: Seq<u8>, d: u8)
    ensures
        weighted_sum(digits.push(d)) == weighted_sum(digits) + weighted_digit(
            digits.len() as int,
            d as int,
        ),
{
    assert(digits.push(d).drop_last() =~= digits);
}

/// Round trip: for fourteen digits, the sequence made of them and their check digit is
/// valid.
pub proof fn lemma_check_digit_round_trip(payload: Seq<u8>)
    requires
        payload.len() == DEVICE_IDENTIFIER_WIDTH - 1,
        all_digits(payload),
    ensures
        0 <= check_digit(payload) <= 9,
        luhn_valid(payload.push(check_digit(payload) as u8)),
{
    lemma_weighted_sum_push(payload, check_digit(payload) as u8);
}

/// The check digit is the only one: the last digit of a valid sequence is the check
/// digit of the digits before it, and the sequence stops being valid when its last digit
/// is replaced by any of the nine other digits.
pub proof fn lemma_check_digit_unique(full: Seq<u8>, other: u8)
    requires
        all_digits(full),
        luhn_valid(full),
        other <= 9,
        other != full.last(),
    ensures
        full.last() == check_digit(full.drop_last()),
        !luhn_valid(full.update(full.len() - 1, other)),
{
    let payload = full.drop_last();
    assert(full.update(full.len() - 1, other) =~= payload.push(other));
    lemma_weighted_sum_push(payload, other);
}

/// The weighted sum of `digits`, reduced modulo ten.
fn weighted_sum_mod_ten(digits: &Vec<u8>) -> (remainder: u8)
    requires
        all_digits(digits@),
    ensures
        remainder == weighted_sum(digits@) % 10,
{
    let mut remainder: u8 = 0;
    let mut i: usize = 0;
    while i < digits.len()
        invariant
            i <= digits.len(),
            all_digits(digits@),
            remainder == weighted_sum(digits@.take(i as int)) % 10,
        decreases digits.len() - i,
    {
        let d: u8 = digits[i];
        let mut weight: u8 = d;
        if i % 2 == 1 {
            weight = 2 * d;
            if weight > 9 {
                weight = weight - 9;
            }
        }
        proof {
            assert(digits@.take(i + 1) =~= digits@.take(i as int).push(d));
            lemma_weighted_sum_push(digits@.take(i as int), d);
        }
        remainder = (remainder + weight) % 10;
        i += 1;
    }
    proof {
        assert(digits@.take(digits@.len() as int) =~= digits@);
    }
    remainder
}

/// The check digit for `digits`.
pub fn compute_check_digit(digits: &DigitSequence) -> (check: u8)
    ensures
        check == check_digit(digits@),
        check <= 9,
{
    let remainder = weighted_sum_mod_ten(digits.digits());
    (10 - remainder) % 10
}

/// Whether `full`, check digit included, is a valid sequence of the width of a device
/// identifier.
pub fn verify(full: &DigitSequence) -> (valid: bool)
    ensures
        valid == luhn_valid(full@),
{
    let digits = full.digits();
    digits.len() == DEVICE_IDENTIFIER_WIDTH && weighted_sum_mod_ten(digits) == 0
}

/// The check digit for the decimal digits that occur in `partial`; its other characters
/// are passed over.
pub fn calculate_luhn_check(partial: &str) -> (check: u32)
    ensures
        check == check_digit(text_digits(partial@)),
        check <= 9,
{
    let digits = DigitSequence::from_text(partial);
    compute_check_digit(&digits) as u32
}

/// Whether the decimal digits that occur in `text` are a valid sequence of the width of
/// a device identifier. The other characters of `text` are passed over, so a text with
/// too few digits is not valid, whatever its length.
pub fn validate_luhn(text: &str) -> (valid: bool)
    ensures
        valid == luhn_valid(text_digits(text@)),
{
    let digits = DigitSequence::from_text(text);
    verify(&digits)
}

} // verus!
