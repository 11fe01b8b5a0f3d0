//! Decimal digits, as characters of a text and as values of a sequence.

use vstd::prelude::*;

verus! {

/// Whether `c` is one of the ten ASCII decimal digits.
pub open spec fn is_digit_char(c: char) -> bool {
    '0' <= c && c <= '9'
}

/// The value of a decimal digit character.
pub open spec fn digit_of_char(c: char) -> u8 {
    (c as int - '0' as int) as u8
}

/// The character that writes the digit `d`.
pub open spec fn char_of_digit(d: u8) -> char {
    (d as int + '0' as int) as char
}

/// Whether every element of `digits` is at most nine.
pub open spec fn all_digits(digits: Seq<u8>) -> bool {
    forall|i: int| 0 <= i < digits.len() ==> digits[i] <= 9
}

/// Whether every character of `text` is a decimal digit.
pub open spec fn all_digit_chars(text: Seq<char>) -> bool {
    forall|i: int| 0 <= i < text.len() ==> is_digit_char(text[i])
}

/// The decimal digits that occur in `text`, in their order; every other character is
/// passed over.
pub open spec fn text_digits(text: Seq<char>) -> Seq<u8> {
    text.filter(|c: char| is_digit_char(c)).map_values(|c: char| digit_of_char(c))
}

/// The text that writes `digits`, one character for each.
pub open spec fn digit_text(digits: Seq<u8>) -> Seq<char> {
    digits.map_values(|d: u8| char_of_digit(d))
}

/// The digits of a text with one more character at its end.
pub proof fn lemma_text_digits_push(text: Seq<char>, c: char)
    ensures
        text_digits(text.push(c)) == if is_digit_char(c) {
            text_digits(text).push(digit_of_char(c))
        } else {
            text_digits(text)
        },
{
    reveal(Seq::filter);
    assert(text.push(c).drop_last() =~= text);
}

/// A text of digits only gives up all of its characters, each as its value.
pub proof fn lemma_text_digits_of_digit_chars(text: Seq<char>)
    requires
        all_digit_chars(text),
    ensures
        text_digits(text).len() == text.len(),
        forall|i: int| 0 <= i < text.len() ==> text_digits(text)[i] == digit_of_char(text[i]),
        all_digits(text_digits(text)),
    decreases text.len(),
{
    if text.len() > 0 {
        let shorter = text.drop_last();
        lemma_text_digits_of_digit_chars(shorter);
        assert(text =~= shorter.push(text.last()));
        lemma_text_digits_push(shorter, text.last());
    }
}

/// A text never holds more digits than characters, and holds fewer where one of its
/// characters is no digit.
pub proof fn lemma_text_digits_len(text: Seq<char>)
    ensures
        text_digits(text).len() <= text.len(),
        !all_digit_chars(text) ==> text_digits(text).len() < text.len(),
    decreases text.len(),
{
    if text.len() > 0 {
        let shorter = text.drop_last();
        lemma_text_digits_len(shorter);
        assert(text =~= shorter.push(text.last()));
        lemma_text_digits_push(shorter, text.last());
    }
}

/// Writing digits and reading them back gives the same digits.
pub proof fn lemma_text_digits_of_digit_text(digits: Seq<u8>)
    requires
        all_digits(digits),
    ensures
        all_digit_chars(digit_text(digits)),
        digit_text(digits).len() == digits.len(),
        text_digits(digit_text(digits)) == digits,
{
    lemma_text_digits_of_digit_chars(digit_text(digits));
}

/// The value of `c`, where `c` is a decimal digit.
pub fn digit_value(c: char) -> (d: Option<u8>)
    ensures
        d is Some <==> is_digit_char(c),
        d matches Some(v) ==> v == digit_of_char(c) && v <= 9,
{
    if '0' <= c && c <= '9' {
        let code: u32 = c as u32;
        Some((code - 48) as u8)
    } else {
        None
    }
}

/// The character that writes `d`.
pub fn digit_char(d: u8) -> (c: char)
    requires
        d <= 9,
    ensures
        c == char_of_digit(d),
        is_digit_char(c),
{
    (48u8 + d) as char
}

/// A sequence of decimal digits: every element is at most nine.
#[derive(Debug)]
pub struct DigitSequence {
    digits: Vec<u8>,
}

impl View for DigitSequence {
    type V = Seq<u8>;

    closed spec fn view(&self) -> Seq<u8> {
        self.digits@
    }
}

impl DigitSequence {
    #[verifier::type_invariant]
    spec fn in_range(&self) -> bool {
        all_digits(self.digits@)
    }

    /// The digits that occur in `text`, in their order. Characters that are no decimal
    /// digits are passed over.
    pub fn from_text(text: &str) -> (sequence: DigitSequence)
        ensures
            sequence@ == text_digits(text@),
            all_digits(sequence@),
    {
        broadcast use vstd::string::axiom_spec_iter;

        let mut digits: Vec<u8> = Vec::new();
        for c in it: text.chars()
            invariant
                it.seq() == text@,
                digits@ == text_digits(text@.take(it.index() as int)),
                all_digits(digits@),
        {
            proof {
                let seen = text@.take(it.index() as int);
                assert(text@.take(it.index() + 1) =~= seen.push(c));
                lemma_text_digits_push(seen, c);
            }
            match digit_value(c) {
                Some(d) => {
                    digits.push(d);
                },
                None => {},
            }
        }
        proof {
            assert(text@.take(text@.len() as int) =~= text@);
        }
        DigitSequence { digits }
    }

    /// Accepts `digits` as a sequence where every element is at most nine, and not
    /// otherwise.
    pub fn from_digits(digits: Vec<u8>) -> (sequence: Option<DigitSequence>)
        ensures
            sequence is Some <==> all_digits(digits@),
            sequence matches Some(s) ==> s@ == digits@,
    {
        let mut i: usize = 0;
        while i < digits.len()
            invariant
                i <= digits.len(),
                forall|j: int| 0 <= j < i ==> digits@[j] <= 9,
            decreases digits.len() - i,
        {
            if digits[i] > 9 {
                return None;
            }
            i += 1;
        }
        Some(DigitSequence { digits })
    }

    /// The digits, first to last.
    pub fn digits(&self) -> (digits: &Vec<u8>)
        ensures
            digits@ == self@,
            all_digits(digits@),
    {
        proof {
            use_type_invariant(self);
        }
        &self.digits
    }

    /// The text that writes the digits, one character for each.
    pub fn to_text(&self) -> (text: String)
        ensures
            text@ == digit_text(self@),
    {
        proof {
            use_type_invariant(self);
        }
        let mut text = String::new();
        let mut i: usize = 0;
        while i < self.digits.len()
            invariant
                i <= self.digits.len(),
                all_digits(self.digits@),
                text@ == digit_text(self.digits@.take(i as int)),
            decreases self.digits.len() - i,
        {
            text.push(digit_char(self.digits[i]));
            proof {
                assert(self.digits@.take(i + 1) =~= self.digits@.take(i as int).push(
                    self.digits@[i as int],
                ));
            }
            i += 1;
        }
        text
    }
}

} // verus!
