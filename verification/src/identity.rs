//! Account identities and their wide-integer form on the host side.
//!
//! An identity is a 64-bit value. Host number types may round it, so it
//! crosses the boundary as a sign and a sequence of 64-bit words.

use vstd::prelude::*;
use vstd::arithmetic::div_mod::lemma_fundamental_div_mod_converse;

verus! {

/// Two to the power of 64: the weight of each further word.
pub open spec fn word_base() -> int {
    0x1_0000_0000_0000_0000
}

/// The number that `words` spell, least significant word first.
pub open spec fn magnitude(words: Seq<u64>) -> nat
    decreases words.len(),
{
    if words.len() == 0 {
        0
    } else {
        (words[0] + word_base() * magnitude(words.drop_first())) as nat
    }
}

/// Sign-and-magnitude integer of arbitrary width, least significant word
/// first.
#[derive(Debug, Clone)]
pub struct BigInt {
    /// True for negative numbers.
    pub sign_bit: bool,
    pub words: Vec<u64>,
}

impl View for BigInt {
    type V = int;

    /// The integer that the value stands for.
    open spec fn view(&self) -> int {
        if self.sign_bit {
            -(magnitude(self.words@) as int)
        } else {
            magnitude(self.words@) as int
        }
    }
}

/// `napi::bindgen_prelude::BigInt::from(u64)`: the result is non-negative and
/// has the argument as its only word.
#[verifier::external_body]
fn words_of_u64(value: u64) -> (repr: (bool, Vec<u64>))
    ensures
        !repr.0,
        repr.1@ == seq![value],
{
    let wide = napi::bindgen_prelude::BigInt::from(value);
    (wide.sign_bit, wide.words)
}

/// `napi::bindgen_prelude::BigInt::get_u64`: the sign, the least significant
/// word, and whether the value is that word and nothing else. The outside
/// function indexes the first word, so a value without words is left out.
#[verifier::external_body]
fn u64_of_words(sign_bit: bool, words: &Vec<u64>) -> (parts: (bool, u64, bool))
    requires
        words@.len() >= 1,
    ensures
        parts.0 == sign_bit,
        parts.1 == words@[0],
        parts.2 == (!sign_bit && words@.len() == 1),
{
    let wide = napi::bindgen_prelude::BigInt { sign_bit, words: words.clone() };
    wide.get_u64()
}

impl BigInt {
    /// A value as the host hands it over holds at least one word.
    pub open spec fn wf(&self) -> bool {
        self.words@.len() >= 1
    }

    /// The least significant word: the 64-bit identity that the value carries.
    pub open spec fn low_word(&self) -> u64
        recommends
            self.wf(),
    {
        self.words@[0]
    }

    /// Whether the value is a single non-negative word.
    pub open spec fn fits_u64(&self) -> bool {
        !self.sign_bit && self.words@.len() == 1
    }

    /// The wide form of a 64-bit identity: one non-negative word.
    pub fn from_u64(value: u64) -> (wide: BigInt)
        ensures
            !wide.sign_bit,
            wide.words@ == seq![value],
            wide@ == value,
    {
        let (sign_bit, words) = words_of_u64(value);
        let wide = BigInt { sign_bit, words };
        proof {
            lemma_single_word(value);
        }
        wide
    }

    /// The sign, the low word, and whether the low word is the whole value
    /// (otherwise it is a truncation).
    pub fn get_u64(&self) -> (parts: (bool, u64, bool))
        requires
            self.wf(),
        ensures
            parts.0 == self.sign_bit,
            parts.1 == self.low_word(),
            parts.2 == self.fits_u64(),
            parts.2 ==> parts.1 == self@,
    {
        proof {
            if self.fits_u64() {
                assert(self.words@ =~= seq![self.words@[0]]);
                lemma_single_word(self.words@[0]);
            }
        }
        u64_of_words(self.sign_bit, &self.words)
    }
}

/// A single word spells itself.
pub proof fn lemma_single_word(word: u64)
    ensures
        magnitude(seq![word]) == word,
{
    let words = seq![word];
    assert(words.drop_first() =~= Seq::<u64>::empty());
    assert(magnitude(words.drop_first()) == 0) by {
        reveal_with_fuel(magnitude, 1);
    }
    assert(word_base() * 0 == 0);
    reveal_with_fuel(magnitude, 2);
}

/// An identity survives the boundary: the wide form of a 64-bit value stands
/// for that value, and reading it back gives the value, marked as complete.
pub proof fn lemma_identity_round_trip(wide: BigInt, id: u64)
    requires
        !wide.sign_bit,
        wide.words@ == seq![id],
    ensures
        wide.wf(),
        wide.fits_u64(),
        wide.low_word() == id,
        wide@ == id,
{
    lemma_single_word(id);
}

/// The low word of a non-negative value is the value modulo two to the 64:
/// reading an identity from a wider number truncates it and nothing else.
pub proof fn lemma_low_word_truncates(wide: BigInt)
    requires
        wide.wf(),
        !wide.sign_bit,
    ensures
        wide.low_word() == wide@ % word_base(),
{
    let words = wide.words@;
    let rest = magnitude(words.drop_first()) as int;
    assert(magnitude(words) == words[0] + word_base() * rest);
    lemma_fundamental_div_mod_converse(wide@, word_base(), rest, words[0] as int);
}

} // verus!
