//! Buffer contents as bytes.
//!
//! Vertex, index and uniform data are kept as machine words and handed out
//! as the bytes that those words occupy in memory. Which end of a word comes
//! first is the machine's choice, so the layout is stated for both orders.

use vstd::prelude::*;

verus! {

/// Byte `k` of `word`, counted from the least significant one.
pub open spec fn byte_of(word: int, k: int) -> u8 {
    if k == 0 {
        (word % 256) as u8
    } else if k == 1 {
        ((word / 0x100) % 256) as u8
    } else if k == 2 {
        ((word / 0x1_0000) % 256) as u8
    } else {
        ((word / 0x100_0000) % 256) as u8
    }
}

/// The bytes of 32-bit `words`, least significant byte of each word first.
pub open spec fn le_bytes_u32(words: Seq<u32>) -> Seq<u8> {
    Seq::new(4 * words.len(), |i: int| byte_of(words[i / 4] as int, i % 4))
}

/// The bytes of 32-bit `words`, most significant byte of each word first.
pub open spec fn be_bytes_u32(words: Seq<u32>) -> Seq<u8> {
    Seq::new(4 * words.len(), |i: int| byte_of(words[i / 4] as int, 3 - i % 4))
}

/// The bytes of 16-bit `words`, least significant byte of each word first.
pub open spec fn le_bytes_u16(words: Seq<u16>) -> Seq<u8> {
    Seq::new(2 * words.len(), |i: int| byte_of(words[i / 2] as int, i % 2))
}

/// The bytes of 16-bit `words`, most significant byte of each word first.
pub open spec fn be_bytes_u16(words: Seq<u16>) -> Seq<u8> {
    Seq::new(2 * words.len(), |i: int| byte_of(words[i / 2] as int, 1 - i % 2))
}

/// Whether `bytes` is how some machine lays out 32-bit `words` in memory.
pub open spec fn is_layout_u32(bytes: Seq<u8>, words: Seq<u32>) -> bool {
    bytes == le_bytes_u32(words) || bytes == be_bytes_u32(words)
}

/// Whether `bytes` is how some machine lays out 16-bit `words` in memory.
pub open spec fn is_layout_u16(bytes: Seq<u8>, words: Seq<u16>) -> bool {
    bytes == le_bytes_u16(words) || bytes == be_bytes_u16(words)
}

/// Calls `bytemuck::cast_slice` from `u32` to `u8` and copies what it
/// returns.
///
/// Trusted: the cast reinterprets the memory of the slice, so the result
/// holds the four bytes of each word, word after word, in the byte order of
/// the machine. A cast to `u8` has no alignment or size condition to fail.
#[verifier::external_body]
pub(crate) fn bytes_of_u32(words: &Vec<u32>) -> (bytes: Vec<u8>)
    ensures
        is_layout_u32(bytes@, words@),
{
    bytemuck::cast_slice::<u32, u8>(words.as_slice()).to_vec()
}

/// Calls `bytemuck::cast_slice` from `u16` to `u8` and copies what it
/// returns.
///
/// Trusted: the cast reinterprets the memory of the slice, so the result
/// holds the two bytes of each word, word after word, in the byte order of
/// the machine. A cast to `u8` has no alignment or size condition to fail.
#[verifier::external_body]
pub(crate) fn bytes_of_u16(words: &Vec<u16>) -> (bytes: Vec<u8>)
    ensures
        is_layout_u16(bytes@, words@),
{
    bytemuck::cast_slice::<u16, u8>(words.as_slice()).to_vec()
}

/// A write of `data` into the buffer of `owner`, starting at byte `offset`.
#[derive(Debug)]
pub struct BufferWrite {
    pub owner: crate::render_pass::Owner,
    pub offset: u64,
    pub data: Vec<u8>,
}

} // verus!
