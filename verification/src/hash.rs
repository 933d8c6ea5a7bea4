//! The decorative hash of a transaction: a fixed tag and ten random hex digits.
//! It proves nothing and is never checked against anything.

use crate::entropy::random_below;
use vstd::prelude::*;
use vstd::string::*;

verus! {

/// The text with which every hash begins.
pub open spec fn hash_tag() -> Seq<char> {
    "proof-of-coffee-"@
}

/// The number of hex digits that follow the tag.
pub open spec fn hash_digits() -> nat {
    10
}

/// The lowercase hex digits, in order of their value.
pub open spec fn hex_alphabet() -> Seq<char> {
    "0123456789abcdef"@
}

/// The lowercase hex digit that stands for `nibble`.
pub open spec fn hex_char(nibble: nat) -> char
    recommends
        nibble < 16,
{
    hex_alphabet()[nibble as int]
}

/// Whether `c` is a lowercase hex digit.
pub open spec fn is_hex_char(c: char) -> bool {
    exists|nibble: nat| nibble < 16 && hex_char(nibble) == c
}

/// The tag, followed by the hex digit of each nibble.
pub open spec fn hash_text(nibbles: Seq<u8>) -> Seq<char> {
    hash_tag() + Seq::new(nibbles.len(), |i: int| hex_char(nibbles[i] as nat))
}

/// Whether `text` has the shape of a decorative hash: the tag, then exactly
/// ten lowercase hex digits.
pub open spec fn is_proof_hash(text: Seq<char>) -> bool {
    &&& text.len() == hash_tag().len() + hash_digits()
    &&& text.subrange(0, hash_tag().len() as int) == hash_tag()
    &&& forall|i: int| hash_tag().len() <= i < text.len() ==> is_hex_char(#[trigger] text[i])
}

/// The hash of ten nibbles has the shape of a decorative hash.
pub proof fn lemma_hash_text_shape(nibbles: Seq<u8>)
    requires
        nibbles.len() == hash_digits(),
        forall|i: int| 0 <= i < nibbles.len() ==> nibbles[i] < 16,
    ensures
        is_proof_hash(hash_text(nibbles)),
{
    let text = hash_text(nibbles);
    let tag = hash_tag();
    assert(text.subrange(0, tag.len() as int) =~= tag);
    assert forall|i: int| tag.len() <= i < text.len() implies is_hex_char(#[trigger] text[i]) by {
        let nibble = nibbles[i - tag.len()] as nat;
        assert(text[i] == hex_char(nibble));
    }
}

/// The one-character text of the hex digit that stands for `nibble`.
pub fn hex_symbol(nibble: u8) -> (symbol: &'static str)
    requires
        nibble < 16,
    ensures
        symbol@ == seq![hex_char(nibble as nat)],
{
    let alphabet = "0123456789abcdef";
    proof {
        reveal_strlit("0123456789abcdef");
        assert(is_ascii(alphabet)) by {
            assert forall|i: int| 0 <= i < alphabet@.len() implies (alphabet@[i] as u32) < 128 by {}
        }
    }
    let start = nibble as usize;
    let symbol = alphabet.substring_ascii(start, start + 1);
    assert(symbol@ =~= seq![hex_char(nibble as nat)]);
    symbol
}

/// The decorative hash that spells out the given nibbles.
pub fn hash_from_nibbles(nibbles: &Vec<u8>) -> (hash: String)
    requires
        forall|i: int| 0 <= i < nibbles@.len() ==> nibbles@[i] < 16,
    ensures
        hash@ == hash_text(nibbles@),
{
    let mut hash = String::from_str("proof-of-coffee-");
    let mut done: usize = 0;
    while done < nibbles.len()
        invariant
            done <= nibbles@.len(),
            forall|i: int| 0 <= i < nibbles@.len() ==> nibbles@[i] < 16,
            hash@ == hash_text(nibbles@.subrange(0, done as int)),
        decreases nibbles@.len() - done,
    {
        hash.append(hex_symbol(nibbles[done]));
        done += 1;
        assert(hash@ =~= hash_text(nibbles@.subrange(0, done as int)));
    }
    assert(nibbles@.subrange(0, done as int) =~= nibbles@);
    hash
}

/// A fresh decorative hash, its ten digits drawn at random.
pub fn generate_fake_hash() -> (hash: String)
    ensures
        is_proof_hash(hash@),
{
    let mut nibbles: Vec<u8> = Vec::new();
    while nibbles.len() < 10
        invariant
            nibbles@.len() <= 10,
            forall|i: int| 0 <= i < nibbles@.len() ==> nibbles@[i] < 16,
        decreases 10 - nibbles@.len(),
    {
        let drawn = random_below(16);
        nibbles.push(drawn as u8);
    }
    proof {
        lemma_hash_text_shape(nibbles@);
    }
    hash_from_nibbles(&nibbles)
}

} // verus!
