//! The fixed-width fields of device and subscriber identifiers.
//!
//! Decoding goes by the positions of the characters of the text as it was given: the
//! first character is at position zero, whatever it is. Only the checksum looks at what
//! the characters are, and it reads the decimal digits alone. A text of the right length
//! that holds another character therefore decodes into its fields and has a checksum
//! that is not valid.

use crate::digits::{all_digit_chars, lemma_text_digits_len, text_digits};
use crate::luhn::{luhn_valid, validate_luhn, DEVICE_IDENTIFIER_WIDTH};
use vstd::prelude::*;
use vstd::string::StrSliceExecFns;

verus! {

/// How many characters the type allocation code of a device identifier has.
pub const TYPE_ALLOCATION_CODE_WIDTH: usize = 8;

/// How many characters of the type allocation code name the reporting body.
pub const REPORTING_BODY_WIDTH: usize = 2;

/// How many characters the serial number of a device identifier has.
pub const SERIAL_NUMBER_WIDTH: usize = 6;

/// How many characters the country code of a subscriber identifier has.
pub const COUNTRY_CODE_WIDTH: usize = 3;

/// How many characters the network code of a subscriber identifier has.
pub const NETWORK_CODE_WIDTH: usize = 2;

/// Why a text could not be decoded.
#[derive(Debug, Clone, Copy, PartialEq, Eq, Structural)]
pub enum DecodeError {
    /// The text has not the length that the kind of identifier asks for.
    LengthError,
}

/// The fields of a device identifier, as texts.
pub struct DeviceIdentifierFields {
    pub tac: Seq<char>,
    pub reporting_body: Seq<char>,
    pub device_type: Seq<char>,
    pub serial_number: Seq<char>,
    pub check_digit: Seq<char>,
    pub checksum_valid: bool,
}

/// A decoded device identifier: its fields as they stand in the text, and whether the
/// digits of the text pass the checksum.
#[derive(Debug, Clone, PartialEq, Eq)]
pub struct DeviceIdentifierView {
    /// The type allocation code: the first eight characters.
    pub tac: String,
    /// The reporting body: the first two characters of the type allocation code.
    pub reporting_body: String,
    /// The device type: the other six characters of the type allocation code.
    pub device_type: String,
    /// The serial number: the six characters after the type allocation code.
    pub serial_number: String,
    /// The check digit: the last character.
    pub check_digit: String,
    /// Whether the decimal digits of the whole text are valid under the checksum.
    pub checksum_valid: bool,
}

impl View for DeviceIdentifierView {
    type V = DeviceIdentifierFields;

    open spec fn view(&self) -> DeviceIdentifierFields {
        DeviceIdentifierFields {
            tac: self.tac@,
            reporting_body: self.reporting_body@,
            device_type: self.device_type@,
            serial_number: self.serial_number@,
            check_digit: self.check_digit@,
            checksum_valid: self.checksum_valid,
        }
    }
}

/// The fields of a subscriber identifier, as texts.
pub struct SubscriberIdentifierFields {
    pub country_code: Seq<char>,
    pub network_code: Seq<char>,
    pub subscriber_number: Seq<char>,
}

/// A decoded subscriber identifier: its fields as they stand in the text.
#[derive(Debug, Clone, PartialEq, Eq)]
pub struct SubscriberIdentifierView {
    /// The country code: the first three characters.
    pub country_code: String,
    /// The network code: the two characters after the country code.
    pub network_code: String,
    /// The subscriber number: all that follows the network code; it may be empty.
    pub subscriber_number: String,
}

impl View for SubscriberIdentifierView {
    type V = SubscriberIdentifierFields;

    open spec fn view(&self) -> SubscriberIdentifierFields {
        SubscriberIdentifierFields {
            country_code: self.country_code@,
            network_code: self.network_code@,
            subscriber_number: self.subscriber_number@,
        }
    }
}

/// Whether `text` is a device identifier: fifteen decimal digits, the last of which is
/// the check digit of the others.
pub open spec fn is_device_identifier(text: Seq<char>) -> bool {
    &&& text.len() == DEVICE_IDENTIFIER_WIDTH
    &&& all_digit_chars(text)
    &&& luhn_valid(text_digits(text))
}

/// The fields of a text of fifteen characters, read as a device identifier.
pub open spec fn device_identifier_fields(text: Seq<char>) -> DeviceIdentifierFields {
    DeviceIdentifierFields {
        tac: text.subrange(0, 8),
        reporting_body: text.subrange(0, 2),
        device_type: text.subrange(2, 8),
        serial_number: text.subrange(8, 14),
        check_digit: text.subrange(14, 15),
        checksum_valid: luhn_valid(text_digits(text)),
    }
}

/// The fields of a text of five characters or more, read as a subscriber identifier.
pub open spec fn subscriber_identifier_fields(text: Seq<char>) -> SubscriberIdentifierFields {
    SubscriberIdentifierFields {
        country_code: text.subrange(0, 3),
        network_code: text.subrange(3, 5),
        subscriber_number: text.subrange(5, text.len() as int),
    }
}

/// A text of fifteen characters, one of which is no decimal digit, has no valid
/// checksum: its digits are too few.
pub proof fn lemma_other_characters_fail_the_checksum(text: Seq<char>)
    requires
        text.len() == DEVICE_IDENTIFIER_WIDTH,
        !all_digit_chars(text),
    ensures
        !device_identifier_fields(text).checksum_valid,
{
    lemma_text_digits_len(text);
}

/// The characters of `text` from position `from` up to, not including, position `to`.
fn field(text: &str, from: usize, to: usize) -> (part: String)
    requires
        from <= to <= text@.len(),
    ensures
        part@ == text@.subrange(from as int, to as int),
{
    text.substring_char(from, to).to_owned()
}

/// Splits a text of exactly fifteen characters into the fields of a device identifier
/// and says whether its digits pass the checksum. A text of any other length is refused.
pub fn decode_device_identifier(text: &str) -> (decoded: Result<
    DeviceIdentifierView,
    DecodeError,
>)
    ensures
        decoded is Ok <==> text@.len() == DEVICE_IDENTIFIER_WIDTH,
        decoded matches Ok(view) ==> view@ == device_identifier_fields(text@),
        decoded matches Err(error) ==> error == DecodeError::LengthError,
{
    if text.unicode_len() != DEVICE_IDENTIFIER_WIDTH {
        return Err(DecodeError::LengthError);
    }
    let serial_start = TYPE_ALLOCATION_CODE_WIDTH;
    let serial_end = TYPE_ALLOCATION_CODE_WIDTH + SERIAL_NUMBER_WIDTH;
    Ok(
        DeviceIdentifierView {
            tac: field(text, 0, TYPE_ALLOCATION_CODE_WIDTH),
            reporting_body: field(text, 0, REPORTING_BODY_WIDTH),
            device_type: field(text, REPORTING_BODY_WIDTH, TYPE_ALLOCATION_CODE_WIDTH),
            serial_number: field(text, serial_start, serial_end),
            check_digit: field(text, serial_end, DEVICE_IDENTIFIER_WIDTH),
            checksum_valid: validate_luhn(text),
        },
    )
}

/// Splits a text of five characters or more into the fields of a subscriber identifier.
/// A shorter text is refused.
pub fn decode_subscriber_identifier(text: &str) -> (decoded: Result<
    SubscriberIdentifierView,
    DecodeError,
>)
    ensures
        decoded is Ok <==> text@.len() >= COUNTRY_CODE_WIDTH + NETWORK_CODE_WIDTH,
        decoded matches Ok(view) ==> view@ == subscriber_identifier_fields(text@),
        decoded matches Err(error) ==> error == DecodeError::LengthError,
{
    let length = text.unicode_len();
    let number_start = COUNTRY_CODE_WIDTH + NETWORK_CODE_WIDTH;
    if length < number_start {
        return Err(DecodeError::LengthError);
    }
    Ok(
        SubscriberIdentifierView {
            country_code: field(text, 0, COUNTRY_CODE_WIDTH),
            network_code: field(text, COUNTRY_CODE_WIDTH, number_start),
            subscriber_number: field(text, number_start, length),
        },
    )
}

} // verus!
