use vstd::prelude::*;
use crate::bytes::{be_word_at, be_words, le_word_at, le_words};

verus! {

/// The first word of every SPIR-V module.
pub const SPIRV_MAGIC: u32 = 0x0723_0203;

/// Whether `bytes` can be a SPIR-V module: a whole number of words, at least one,
/// the first of which is the magic number in either byte order.
pub open spec fn is_spirv(bytes: Seq<u8>) -> bool {
    &&& bytes.len() % 4 == 0
    &&& bytes.len() >= 4
    &&& (le_word_at(bytes, 0) == SPIRV_MAGIC || be_word_at(bytes, 0) == SPIRV_MAGIC)
}

/// The words of the SPIR-V module `bytes`, in the byte order in which its first
/// word is the magic number (little-endian when both would do).
pub open spec fn spirv_words(bytes: Seq<u8>) -> Seq<u32> {
    if le_word_at(bytes, 0) == SPIRV_MAGIC { le_words(bytes) } else { be_words(bytes) }
}

/// `ash::util::read_spv` over the bytes in memory: it fails unless the length is a
/// multiple of four and the first word, read in the machine's byte order or
/// swapped, is the magic number; it swaps every word when the magic number came
/// out swapped.
#[verifier::external_body]
fn read_spv_words(bytes: &[u8]) -> (r: Option<Vec<u32>>)
    ensures
        r is Some <==> is_spirv(bytes@),
        r matches Some(w) ==> w@ == spirv_words(bytes@),
{
    ash::util::read_spv(&mut std::io::Cursor::new(bytes)).ok()
}

/// Decodes a compiled shader into its SPIR-V words, or `None` when the bytes are
/// not a SPIR-V module.
pub fn decode_shader(bytes: &Vec<u8>) -> (r: Option<Vec<u32>>)
    ensures
        r is Some <==> is_spirv(bytes@),
        r matches Some(w) ==> w@ == spirv_words(bytes@),
{
    read_spv_words(bytes.as_slice())
}

} // verus!
