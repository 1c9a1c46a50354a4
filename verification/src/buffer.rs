//! The byte images of a mesh's buffers, as they are handed to the graphics
//! API, and the counts that a draw call needs.

use crate::mesh::Mesh;
use vstd::prelude::*;

verus! {

/// Byte `k` of a word, counted from the least significant byte.
pub open spec fn word_byte(word: u32, k: int) -> u8 {
    if k == 0 {
        (word % 256) as u8
    } else if k == 1 {
        (word / 256 % 256) as u8
    } else if k == 2 {
        (word / 65536 % 256) as u8
    } else {
        (word / 16777216) as u8
    }
}

/// The words laid out in memory with the least significant byte first.
pub open spec fn little_endian(words: Seq<u32>) -> Seq<u8> {
    Seq::new(4 * words.len(), |i: int| word_byte(words[i / 4], i % 4))
}

/// The words laid out in memory with the most significant byte first.
pub open spec fn big_endian(words: Seq<u32>) -> Seq<u8> {
    Seq::new(4 * words.len(), |i: int| word_byte(words[i / 4], 3 - i % 4))
}

/// `bytes` is the memory image of `words` on a machine of either byte order.
pub open spec fn memory_image(bytes: Seq<u8>, words: Seq<u32>) -> bool {
    bytes == little_endian(words) || bytes == big_endian(words)
}

/// `bytemuck::cast_slice` from 32-bit words to bytes: the same memory seen as
/// bytes, four per word, in the machine's byte order. The cast to bytes cannot
/// fail, since a byte has no alignment and every word is four of them.
#[verifier::external_body]
fn words_as_bytes(words: &[u32]) -> (bytes: &[u8])
    ensures
        memory_image(bytes@, words@),
{
    bytemuck::cast_slice(words)
}

impl Mesh {
    /// The vertex buffer as bytes: 32 per vertex record.
    pub fn vertex_bytes(&self) -> (bytes: &[u8])
        ensures
            memory_image(bytes@, self.vertices@),
            bytes@.len() == 4 * self.vertices@.len(),
            self.wf() ==> bytes@.len() == 32 * self.vertex_count(),
    {
        words_as_bytes(self.vertices.as_slice())
    }

    /// The index buffer as bytes: four per index.
    pub fn index_bytes(&self) -> (bytes: &[u8])
        ensures
            memory_image(bytes@, self.indices@),
            bytes@.len() == 4 * self.indices@.len(),
            bytes@.len() / 4 / 3 == self.triangle_count(),
    {
        words_as_bytes(self.indices.as_slice())
    }

    /// The number of indices of a draw call, where it fits the signed 32-bit
    /// count that the graphics API takes.
    pub fn index_count(&self) -> (count: Option<i32>)
        ensures
            self.indices@.len() <= i32::MAX ==> count == Some(self.indices@.len() as i32),
            self.indices@.len() > i32::MAX ==> count.is_none(),
    {
        let len: usize = self.indices.len();
        if len <= 0x7fff_ffff {
            Some(len as i32)
        } else {
            None
        }
    }
}

/// The four bytes of a word give the word back, so a memory image holds every
/// word of its buffer unchanged.
pub proof fn lemma_bytes_give_word(word: u32)
    ensures
        word == word_byte(word, 0) + 256 * word_byte(word, 1) + 65536 * word_byte(word, 2)
            + 16777216 * word_byte(word, 3),
{
}

/// A memory image holds the bytes of word `k` at the positions `4 * k` to
/// `4 * k + 3`, in one of the two byte orders.
pub proof fn lemma_memory_image_words(bytes: Seq<u8>, words: Seq<u32>, k: int, b: int)
    requires
        memory_image(bytes, words),
        0 <= k < words.len(),
        0 <= b < 4,
    ensures
        bytes.len() == 4 * words.len(),
        bytes[4 * k + b] == word_byte(words[k], b) || bytes[4 * k + b] == word_byte(words[k], 3 - b),
{
    let i = 4 * k + b;
    assert(i / 4 == k && i % 4 == b);
}

/// An index buffer read back as bytes holds as many triangles as the mesh's
/// indices describe: a third of a quarter of its length.
pub proof fn lemma_index_buffer_round_trip(mesh: Mesh, bytes: Seq<u8>)
    requires
        memory_image(bytes, mesh.indices@),
    ensures
        bytes.len() == 4 * mesh.indices@.len(),
        bytes.len() / 4 / 3 == mesh.triangle_count(),
{
}

} // verus!
