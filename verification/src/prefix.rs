//! The fixed prefixes that identifiers are generated under.
//!
//! A prefix is looked up by the name of a manufacturer or of a provider. Names are
//! compared as they are written: a name in capitals is another name.

use crate::digits::all_digit_chars;
use crate::text::{optional_text, text_equals};
use vstd::prelude::*;

verus! {

/// How many type allocation codes the table holds.
pub const DEVICE_PREFIX_COUNT: usize = 5;

/// The type allocation codes that device identifiers are generated under.
pub open spec fn device_prefixes() -> Seq<Seq<char>> {
    seq!["35332509"@, "35391110"@, "35455506"@, "86794003"@, "35904211"@]
}

/// The type allocation code of a manufacturer, for the manufacturers that have one.
pub open spec fn known_device_prefix(manufacturer: Option<Seq<char>>) -> Option<Seq<char>> {
    if manufacturer == Some("samsung"@) {
        Some(device_prefixes()[0])
    } else if manufacturer == Some("apple"@) {
        Some(device_prefixes()[1])
    } else if manufacturer == Some("google"@) {
        Some(device_prefixes()[2])
    } else if manufacturer == Some("xiaomi"@) {
        Some(device_prefixes()[3])
    } else {
        None
    }
}

/// The prefix that card identifiers are generated under where the provider has none of
/// its own.
pub open spec fn default_card_prefix() -> Seq<char> {
    "8901100"@
}

/// The prefix of a provider's card identifiers.
pub open spec fn card_prefix(provider: Option<Seq<char>>) -> Seq<char> {
    if provider == Some("verizon"@) {
        "8914800"@
    } else if provider == Some("att"@) {
        "8901410"@
    } else if provider == Some("tmobile"@) {
        "8901260"@
    } else {
        default_card_prefix()
    }
}

/// Every type allocation code in the table is made of eight decimal digits.
pub proof fn lemma_device_prefixes_are_digits()
    ensures
        device_prefixes().len() == DEVICE_PREFIX_COUNT,
        forall|i: int|
            0 <= i < device_prefixes().len() ==> (#[trigger] device_prefixes()[i]).len() == 8
                && all_digit_chars(device_prefixes()[i]),
{
    reveal_strlit("35332509");
    reveal_strlit("35391110");
    reveal_strlit("35455506");
    reveal_strlit("86794003");
    reveal_strlit("35904211");
}

/// Every provider's prefix is made of seven decimal digits.
pub proof fn lemma_card_prefix_is_digits(provider: Option<Seq<char>>)
    ensures
        card_prefix(provider).len() == 7,
        all_digit_chars(card_prefix(provider)),
{
    reveal_strlit("8914800");
    reveal_strlit("8901410");
    reveal_strlit("8901260");
    reveal_strlit("8901100");
}

/// The type allocation code at `index` of the table.
pub fn device_prefix_at(index: usize) -> (prefix: &'static str)
    requires
        index < DEVICE_PREFIX_COUNT,
    ensures
        prefix@ == device_prefixes()[index as int],
{
    if index == 0 {
        "35332509"
    } else if index == 1 {
        "35391110"
    } else if index == 2 {
        "35455506"
    } else if index == 3 {
        "86794003"
    } else {
        "35904211"
    }
}

/// The type allocation code of `manufacturer`, if it is one of those that have one.
pub fn lookup_device_prefix(manufacturer: Option<&str>) -> (prefix: Option<&'static str>)
    ensures
        optional_text(prefix) == known_device_prefix(optional_text(manufacturer)),
{
    match manufacturer {
        Some(name) => {
            if text_equals(name, "samsung") {
                Some(device_prefix_at(0))
            } else if text_equals(name, "apple") {
                Some(device_prefix_at(1))
            } else if text_equals(name, "google") {
                Some(device_prefix_at(2))
            } else if text_equals(name, "xiaomi") {
                Some(device_prefix_at(3))
            } else {
                None
            }
        },
        None => None,
    }
}

/// The prefix of the card identifiers of `provider`; the default one where the provider
/// is absent or has none of its own.
pub fn lookup_card_prefix(provider: Option<&str>) -> (prefix: &'static str)
    ensures
        prefix@ == card_prefix(optional_text(provider)),
{
    match provider {
        Some(name) => {
            if text_equals(name, "verizon") {
                "8914800"
            } else if text_equals(name, "att") {
                "8901410"
            } else if text_equals(name, "tmobile") {
                "8901260"
            } else {
                "8901100"
            }
        },
        None => "8901100",
    }
}

} // verus!
