//! Shader binaries: SPIR-V words from bytes.

use vstd::prelude::*;

verus! {

/// The first word of every SPIR-V module.
pub const SPIRV_MAGIC: u32 = 0x0723_0203;

/// Word `i` of `bytes`, read least significant byte first.
pub open spec fn word_le(bytes: Seq<u8>, i: int) -> int {
    bytes[4 * i] + bytes[4 * i + 1] * 0x100 + bytes[4 * i + 2] * 0x1_0000 + bytes[4 * i + 3]
        * 0x100_0000
}

/// Word `i` of `bytes`, read most significant byte first.
pub open spec fn word_be(bytes: Seq<u8>, i: int) -> int {
    bytes[4 * i] * 0x100_0000 + bytes[4 * i + 1] * 0x1_0000 + bytes[4 * i + 2] * 0x100 + bytes[4
        * i + 3]
}

/// The words of a SPIR-V module stored in `bytes`: the bytes are read in
/// the byte order in which the first word is the magic number. There are
/// none where the length is no multiple of four or no byte order gives the
/// magic number.
pub open spec fn spirv_words(bytes: Seq<u8>) -> Option<Seq<u32>> {
    if bytes.len() == 0 || bytes.len() % 4 != 0 {
        None
    } else if word_le(bytes, 0) == SPIRV_MAGIC {
        Some(Seq::new(bytes.len() / 4, |i: int| word_le(bytes, i) as u32))
    } else if word_be(bytes, 0) == SPIRV_MAGIC {
        Some(Seq::new(bytes.len() / 4, |i: int| word_be(bytes, i) as u32))
    } else {
        None
    }
}

/// `wgpu::read_spirv` on a cursor over `bytes`. It refuses a length that is
/// no multiple of four, reads the words as the machine stores them, swaps
/// the bytes of every word where the first word is the magic number with
/// its bytes swapped, and then refuses an empty module and one whose first
/// word is not the magic number. On either kind of machine this leaves the
/// words of the byte order in which the first word is the magic number.
#[verifier::external_body]
pub(crate) fn read_spirv(bytes: &[u8]) -> (r: Option<Vec<u32>>)
    ensures
        match r {
            Some(words) => spirv_words(bytes@) == Some(words@),
            None => spirv_words(bytes@) is None,
        },
{
    wgpu::read_spirv(std::io::Cursor::new(bytes)).ok()
}

} // verus!
