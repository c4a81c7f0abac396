//! The byte form in which words reach GPU buffers.

use vstd::prelude::*;

verus! {

/// The four bytes of a word, least significant first.
pub open spec fn le_bytes(w: u32) -> Seq<u8> {
    seq![
        (w & 0xff) as u8,
        ((w >> 8) & 0xff) as u8,
        ((w >> 16) & 0xff) as u8,
        ((w >> 24) & 0xff) as u8,
    ]
}

/// The four bytes of a word, most significant first.
pub open spec fn be_bytes(w: u32) -> Seq<u8> {
    seq![
        ((w >> 24) & 0xff) as u8,
        ((w >> 16) & 0xff) as u8,
        ((w >> 8) & 0xff) as u8,
        (w & 0xff) as u8,
    ]
}

/// The words laid end to end, each least significant byte first.
pub open spec fn le_image(words: Seq<u32>) -> Seq<u8> {
    Seq::new(4 * words.len(), |i: int| le_bytes(words[i / 4])[i % 4])
}

/// The words laid end to end, each most significant byte first.
pub open spec fn be_image(words: Seq<u32>) -> Seq<u8> {
    Seq::new(4 * words.len(), |i: int| be_bytes(words[i / 4])[i % 4])
}

/// `bytes` is what `words` look like in this machine's memory: the words in
/// order, four bytes each, all in one byte order.
pub open spec fn is_memory_image(words: Seq<u32>, bytes: Seq<u8>) -> bool {
    bytes == le_image(words) || bytes == be_image(words)
}

/// `bytemuck::cast_slice::<u32, u8>`, copied into a vector. The cast
/// reinterprets the slice's memory, so the result holds four bytes per word,
/// in the order of the words and in the byte order of the machine. A cast
/// from `u32` to `u8` cannot fail: `u8` has no alignment demand and every
/// length in bytes is a whole number of `u8`.
#[verifier::external_body]
pub(crate) fn memory_image(words: &[u32]) -> (bytes: Vec<u8>)
    ensures
        is_memory_image(words@, bytes@),
{
    bytemuck::cast_slice::<u32, u8>(words).to_vec()
}

} // verus!
