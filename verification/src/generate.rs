//! Generation of device and card identifiers.
//!
//! An identifier is a prefix from the table followed by random digits; a device
//! identifier ends in the check digit of all that stands before it. What is random is
//! drawn first, and the identifier is then put together from the prefix and the digits
//! drawn by a function that says exactly what it returns.

use crate::digits::{
    all_digit_chars, all_digits, char_of_digit, digit_char, digit_text,
    lemma_text_digits_of_digit_chars, lemma_text_digits_of_digit_text, lemma_text_digits_push,
    text_digits, DigitSequence,
};
use crate::luhn::{calculate_luhn_check, check_digit, lemma_check_digit_round_trip};
use crate::prefix::{
    card_prefix, device_prefix_at, device_prefixes, known_device_prefix,
    lemma_card_prefix_is_digits, lemma_device_prefixes_are_digits, lookup_card_prefix,
    lookup_device_prefix, DEVICE_PREFIX_COUNT,
};
use crate::random::{draw_below, draw_digits};
use crate::structure::{
    device_identifier_fields, is_device_identifier, SERIAL_NUMBER_WIDTH,
    TYPE_ALLOCATION_CODE_WIDTH,
};
use crate::text::optional_text;
use vstd::prelude::*;
use vstd::string::StringExecFns;

verus! {

/// How many digits follow the prefix of a card identifier.
pub const CARD_SERIAL_WIDTH: usize = 12;

/// How many digits a card identifier has.
pub const CARD_IDENTIFIER_WIDTH: usize = 19;

/// The text made of `prefix`, the digits of `serial` and the check digit of the digits
/// that occur in both.
pub open spec fn device_identifier_text(prefix: Seq<char>, serial: Seq<u8>) -> Seq<char> {
    let partial = prefix + digit_text(serial);
    partial.push(char_of_digit(check_digit(text_digits(partial)) as u8))
}

/// The text made of `prefix` and the digits of `serial`.
pub open spec fn card_identifier_text(prefix: Seq<char>, serial: Seq<u8>) -> Seq<char> {
    prefix + digit_text(serial)
}

/// A prefix of eight digits and a serial number of six make a device identifier, and
/// decoding it gives the prefix and the serial number back, with a valid checksum.
pub proof fn lemma_device_identifier_text(prefix: Seq<char>, serial: Seq<u8>)
    requires
        prefix.len() == TYPE_ALLOCATION_CODE_WIDTH,
        all_digit_chars(prefix),
        serial.len() == SERIAL_NUMBER_WIDTH,
        all_digits(serial),
    ensures
        is_device_identifier(device_identifier_text(prefix, serial)),
        device_identifier_fields(device_identifier_text(prefix, serial)).tac == prefix,
        device_identifier_fields(device_identifier_text(prefix, serial)).serial_number
            == digit_text(serial),
        device_identifier_fields(device_identifier_text(prefix, serial)).checksum_valid,
{
    let partial = prefix + digit_text(serial);
    let payload = text_digits(partial);
    let check = check_digit(payload) as u8;
    lemma_text_digits_of_digit_text(serial);
    lemma_text_digits_of_digit_chars(prefix);
    lemma_check_digit_round_trip(payload);
    lemma_text_digits_push(partial, char_of_digit(check));
}

/// Puts a device identifier together: `prefix`, the digits of `serial`, and the check
/// digit of the digits that occur in both.
pub fn assemble_device_identifier(prefix: &str, serial: &DigitSequence) -> (identifier: String)
    ensures
        identifier@ == device_identifier_text(prefix@, serial@),
{
    let partial = String::from_str(prefix).concat(serial.to_text().as_str());
    let check = calculate_luhn_check(partial.as_str());
    let mut identifier = partial;
    identifier.push(digit_char(check as u8));
    identifier
}

/// Puts a card identifier together: `prefix` and the digits of `serial`. No check digit
/// follows.
pub fn assemble_card_identifier(prefix: &str, serial: &DigitSequence) -> (identifier: String)
    ensures
        identifier@ == card_identifier_text(prefix@, serial@),
{
    String::from_str(prefix).concat(serial.to_text().as_str())
}

/// Generates a device identifier. Its type allocation code is that of `manufacturer`
/// where the table has one for it, and else any one of the table, drawn at random. The
/// serial number is six digits drawn at random, and the check digit is computed.
pub fn generate_device_identifier(manufacturer: Option<&str>) -> (identifier: String)
    ensures
        is_device_identifier(identifier@),
        match known_device_prefix(optional_text(manufacturer)) {
            Some(prefix) => identifier@.subrange(0, 8) == prefix,
            None => device_prefixes().contains(identifier@.subrange(0, 8)),
        },
{
    let mut rng = rand::thread_rng();
    proof {
        lemma_device_prefixes_are_digits();
    }
    let prefix = match lookup_device_prefix(manufacturer) {
        Some(known) => known,
        None => device_prefix_at(draw_below(&mut rng, DEVICE_PREFIX_COUNT)),
    };
    let serial = draw_digits(&mut rng, SERIAL_NUMBER_WIDTH);
    proof {
        lemma_device_identifier_text(prefix@, serial@);
    }
    assemble_device_identifier(prefix, &serial)
}

/// Generates a card identifier: the prefix of `provider`, or the default prefix where
/// the provider is absent or has none of its own, and twelve digits drawn at random.
/// No check digit is attached.
pub fn generate_card_identifier(provider: Option<&str>) -> (identifier: String)
    ensures
        identifier@.len() == CARD_IDENTIFIER_WIDTH,
        all_digit_chars(identifier@),
        identifier@.subrange(0, 7) == card_prefix(optional_text(provider)),
{
    let mut rng = rand::thread_rng();
    let prefix = lookup_card_prefix(provider);
    let serial = draw_digits(&mut rng, CARD_SERIAL_WIDTH);
    proof {
        lemma_card_prefix_is_digits(optional_text(provider));
    }
    assemble_card_identifier(prefix, &serial)
}

/// Generates `count` device identifiers, each on its own and under a type allocation
/// code drawn at random. Two of them may be the same.
pub fn generate_batch(count: usize) -> (batch: Vec<String>)
    ensures
        batch@.len() == count,
        forall|i: int|
            0 <= i < count ==> is_device_identifier(#[trigger] batch@[i]@)
                && device_prefixes().contains(batch@[i]@.subrange(0, 8)),
{
    let mut batch: Vec<String> = Vec::new();
    let mut i: usize = 0;
    while i < count
        invariant
            i <= count,
            batch@.len() == i,
            forall|j: int|
                0 <= j < i ==> is_device_identifier(#[trigger] batch@[j]@)
                    && device_prefixes().contains(batch@[j]@.subrange(0, 8)),
        decreases count - i,
    {
        let identifier = generate_device_identifier(None);
        batch.push(identifier);
        i += 1;
    }
    batch
}

} // verus!
