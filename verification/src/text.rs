//! Words of ASCII text as bytes: how a word is held against a keyword.

use vstd::prelude::*;
use vstd::string::StringSliceAdditionalSpecFns;

verus! {

/// The byte `b` with an ASCII capital turned into the small letter.
pub open spec fn lower(b: u8) -> u8 {
    if 0x41 <= b <= 0x5a {
        (b + 0x20) as u8
    } else {
        b
    }
}

/// Whether `word` is the keyword `key`.
pub open spec fn is_key(word: Seq<u8>, key: &str) -> bool {
    word == key.spec_bytes()
}

/// Whether `word` is the keyword `key` but for the case of its letters.
pub open spec fn is_name(word: Seq<u8>, key: &str) -> bool {
    word.map_values(|b: u8| lower(b)) == key.spec_bytes()
}

/// Whether the word is the keyword.
pub fn is_keyword(word: &Vec<u8>, key: &str) -> (r: bool)
    ensures
        r == is_key(word@, key),
{
    let want = key.as_bytes();
    if word.len() != want.len() {
        return false;
    }
    let mut i: usize = 0;
    while i < word.len()
        invariant
            i <= word.len(),
            word.len() == want.len(),
            want@ == key.spec_bytes(),
            forall|k: int| 0 <= k < i ==> word@[k] == want@[k],
        decreases word.len() - i,
    {
        if word[i] != want[i] {
            return false;
        }
        i = i + 1;
    }
    assert(word@ =~= want@);
    true
}

/// Whether the word is the keyword but for the case of its letters.
pub fn is_named(word: &Vec<u8>, key: &str) -> (r: bool)
    ensures
        r == is_name(word@, key),
{
    let want = key.as_bytes();
    let ghost lowered = word@.map_values(|b: u8| lower(b));
    if word.len() != want.len() {
        return false;
    }
    let mut i: usize = 0;
    while i < word.len()
        invariant
            i <= word.len(),
            word.len() == want.len(),
            want@ == key.spec_bytes(),
            lowered == word@.map_values(|b: u8| lower(b)),
            forall|k: int| 0 <= k < i ==> lowered[k] == want@[k],
        decreases word.len() - i,
    {
        let b: u8 = word[i];
        let low: u8 = if 0x41 <= b && b <= 0x5a {
            b + 0x20
        } else {
            b
        };
        if low != want[i] {
            assert(lowered[i as int] != want@[i as int]);
            return false;
        }
        i = i + 1;
    }
    assert(lowered =~= want@);
    true
}

/// The bytes of a string.
pub fn bytes_of(value: &str) -> (word: Vec<u8>)
    ensures
        word@ == value.spec_bytes(),
{
    let bytes = value.as_bytes();
    let mut word: Vec<u8> = Vec::new();
    let mut i: usize = 0;
    while i < bytes.len()
        invariant
            i <= bytes.len(),
            word@ == bytes@.take(i as int),
        decreases bytes.len() - i,
    {
        word.push(bytes[i]);
        assert(word@ =~= bytes@.take(i + 1));
        i = i + 1;
    }
    assert(bytes@.take(i as int) =~= bytes@);
    word
}

} // verus!
