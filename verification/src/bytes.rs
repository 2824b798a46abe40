//! Words as the bytes of a buffer.

use vstd::prelude::*;
use vstd::slice::slice_to_vec;

verus! {

/// Byte `k` of a word, counted from its low end.
pub open spec fn byte_of(word: u32, k: int) -> u8 {
    if k == 0 {
        (word % 0x100) as u8
    } else if k == 1 {
        (word / 0x100 % 0x100) as u8
    } else if k == 2 {
        (word / 0x1_0000 % 0x100) as u8
    } else {
        (word / 0x100_0000) as u8
    }
}

/// The bytes of `words`, each word with its low byte first.
pub open spec fn little_endian(words: Seq<u32>) -> Seq<u8> {
    Seq::new(4 * words.len(), |i: int| byte_of(words[i / 4], i % 4))
}

/// The bytes of `words`, each word with its high byte first.
pub open spec fn big_endian(words: Seq<u32>) -> Seq<u8> {
    Seq::new(4 * words.len(), |i: int| byte_of(words[i / 4], 3 - i % 4))
}

/// Whether `bytes` are the bytes of `words` in one of the two byte orders
/// that a machine can have.
pub open spec fn in_machine_order(words: Seq<u32>, bytes: Seq<u8>) -> bool {
    bytes == little_endian(words) || bytes == big_endian(words)
}

/// Calls `bytemuck::cast_slice` to look at 32-bit words as bytes.
///
/// Trusted: the bytes are those of the words, word after word, in the byte
/// order of the machine, which is one of the two that there are.
#[verifier::external_body]
fn cast_slice(words: &[u32]) -> (bytes: &[u8])
    ensures
        in_machine_order(words@, bytes@),
{
    bytemuck::cast_slice(words)
}

/// The bytes of a buffer that holds `words`, in the byte order of the
/// machine.
pub fn buffer_bytes(words: &[u32]) -> (bytes: Vec<u8>)
    ensures
        in_machine_order(words@, bytes@),
        bytes@.len() == 4 * words@.len(),
{
    slice_to_vec(cast_slice(words))
}

} // verus!
