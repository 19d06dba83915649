//! ROM images: the bytes of a program file as the words the machine runs.
use vstd::prelude::*;
use crate::machine::word;

verus! {

/// The words of a ROM image: each pair of bytes, high byte first. An odd
/// last byte belongs to no word and is dropped.
pub open spec fn rom_words(bytes: Seq<u8>) -> Seq<u16> {
    Seq::new(bytes.len() / 2, |k: int| word(bytes[2 * k], bytes[2 * k + 1]))
}

/// The words of the ROM image `bytes`.
pub fn words_from_bytes(bytes: &[u8]) -> (words: Vec<u16>)
    ensures
        words@ == rom_words(bytes@),
{
    let mut words: Vec<u16> = Vec::new();
    let n = bytes.len() / 2;
    let mut k: usize = 0;
    while k < n
        invariant
            0 <= k <= n,
            n == bytes.len() / 2,
            words@.len() == k,
            forall|j: int| 0 <= j < k ==> #[trigger] words@[j] == word(bytes@[2 * j], bytes@[2 * j + 1]),
        decreases n - k,
    {
        let hi = bytes[2 * k];
        let lo = bytes[2 * k + 1];
        words.push((hi as u16) * 256 + (lo as u16));
        k += 1;
    }
    assert(words@ =~= rom_words(bytes@));
    words
}

} // verus!
