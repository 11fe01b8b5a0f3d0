//! A codec for fixed-format numeric identifiers that carry a Luhn check digit.
//!
//! - [`digits`]: decimal digits, as characters of a text and as values of a sequence.
//! - [`luhn`]: the checksum, its check digit, and the laws that bind the two.
//! - [`structure`]: the fields of device and subscriber identifiers.
//! - [`prefix`]: the prefixes that identifiers are generated under.
//! - [`random`]: random draws.
//! - [`generate`]: generation of device and card identifiers, one or many.
//! - [`text`]: comparing texts and writing them line by line.

pub mod digits;
pub mod generate;
pub mod luhn;
pub mod prefix;
pub mod random;
pub mod structure;
pub mod text;
