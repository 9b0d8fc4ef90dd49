//! Byte images of vertex, index and uniform data.
//!
//! Everything a device buffer receives from this crate is a sequence of
//! 32-bit words: indices as they are, coordinates and colours as their bit
//! patterns. A word is written least significant byte first.

use vstd::prelude::*;
use crate::vertex::{vertex_words, Vertex, INDEX_BYTES, VERTEX_BYTES, VERTEX_WORDS};

verus! {

/// Size in bytes to whose multiples a block of uniforms is filled up.
pub const UNIFORM_ALIGN: usize = 16;

/// Byte `place` of `word`, where place 0 is the least significant byte.
pub open spec fn le_byte(word: u32, place: int) -> u8 {
    if place == 0 {
        (word % 0x100) as u8
    } else if place == 1 {
        (word / 0x100 % 0x100) as u8
    } else if place == 2 {
        (word / 0x1_0000 % 0x100) as u8
    } else {
        (word / 0x100_0000 % 0x100) as u8
    }
}

/// The byte image of a sequence of words: four bytes per word, in the order
/// of the words, each word least significant byte first.
pub open spec fn le_bytes(words: Seq<u32>) -> Seq<u8> {
    Seq::new(4 * words.len(), |i: int| le_byte(words[i / 4], i % 4))
}

/// Number of zero bytes that fill `len` bytes up to a multiple of
/// `UNIFORM_ALIGN`.
pub open spec fn padding_for(len: nat) -> nat {
    ((UNIFORM_ALIGN - len % (UNIFORM_ALIGN as nat)) % (UNIFORM_ALIGN as int)) as nat
}

/// `bytes` followed by the zero bytes that fill it up to a multiple of
/// `UNIFORM_ALIGN`.
pub open spec fn padded(bytes: Seq<u8>) -> Seq<u8> {
    bytes + Seq::new(padding_for(bytes.len()), |i: int| 0u8)
}

/// Writes one word to the end of `bytes`, least significant byte first.
fn push_word(bytes: &mut Vec<u8>, word: u32)
    ensures
        final(bytes)@ == old(bytes)@ + seq![
            le_byte(word, 0),
            le_byte(word, 1),
            le_byte(word, 2),
            le_byte(word, 3),
        ],
{
    assert(word & 0xff == word % 0x100) by (bit_vector);
    assert((word >> 8) & 0xff == word / 0x100 % 0x100) by (bit_vector);
    assert((word >> 16) & 0xff == word / 0x1_0000 % 0x100) by (bit_vector);
    assert((word >> 24) & 0xff == word / 0x100_0000 % 0x100) by (bit_vector);
    let ghost before = bytes@;
    bytes.push((word & 0xff) as u8);
    bytes.push(((word >> 8) & 0xff) as u8);
    bytes.push(((word >> 16) & 0xff) as u8);
    bytes.push(((word >> 24) & 0xff) as u8);
    assert(bytes@ =~= before + seq![
        le_byte(word, 0),
        le_byte(word, 1),
        le_byte(word, 2),
        le_byte(word, 3),
    ]);
}

/// The byte image of `words`, ready to be written to a vertex or index
/// buffer.
pub fn pack_words(words: &[u32]) -> (bytes: Vec<u8>)
    ensures
        bytes@ == le_bytes(words@),
{
    let mut bytes: Vec<u8> = Vec::new();
    let mut done: usize = 0;
    while done < words.len()
        invariant
            done <= words@.len(),
            bytes@ == le_bytes(words@.take(done as int)),
        decreases words@.len() - done,
    {
        push_word(&mut bytes, words[done]);
        assert(bytes@ =~= le_bytes(words@.take(done + 1)));
        done = done + 1;
    }
    assert(words@.take(done as int) =~= words@);
    bytes
}

/// The byte image of `vertices`, ready to be written to a vertex buffer:
/// twenty bytes per vertex, position first.
pub fn pack_vertices(vertices: &[Vertex]) -> (bytes: Vec<u8>)
    ensures
        bytes@ == le_bytes(vertex_words(vertices@)),
{
    let mut bytes: Vec<u8> = Vec::new();
    let mut done: usize = 0;
    while done < vertices.len()
        invariant
            done <= vertices@.len(),
            bytes@ == le_bytes(vertex_words(vertices@.take(done as int))),
        decreases vertices@.len() - done,
    {
        let vertex = vertices[done];
        push_word(&mut bytes, vertex.xyz[0]);
        push_word(&mut bytes, vertex.xyz[1]);
        push_word(&mut bytes, vertex.xyz[2]);
        push_word(&mut bytes, vertex.uv[0]);
        push_word(&mut bytes, vertex.uv[1]);
        assert(bytes@ =~= le_bytes(vertex_words(vertices@.take(done + 1))));
        done = done + 1;
    }
    assert(vertices@.take(done as int) =~= vertices@);
    bytes
}

/// The byte image of a block of uniforms: the words of the block, filled up
/// with zero bytes to a multiple of `UNIFORM_ALIGN`.
pub fn pack_uniforms(words: &[u32]) -> (bytes: Vec<u8>)
    ensures
        bytes@ == padded(le_bytes(words@)),
        bytes@.len() % (UNIFORM_ALIGN as nat) == 0,
{
    let mut bytes = pack_words(words);
    let ghost image = bytes@;
    let mut missing: usize = (UNIFORM_ALIGN - bytes.len() % UNIFORM_ALIGN) % UNIFORM_ALIGN;
    assert(missing == padding_for(image.len()));
    while missing > 0
        invariant
            missing <= padding_for(image.len()),
            bytes@ == image + Seq::new((padding_for(image.len()) - missing) as nat, |i: int| 0u8),
        decreases missing,
    {
        bytes.push(0);
        missing = missing - 1;
        assert(bytes@ =~= image + Seq::new(
            (padding_for(image.len()) - missing) as nat,
            |i: int| 0u8,
        ));
    }
    bytes
}

/// A word is the sum of its four bytes, each weighted by its place.
pub proof fn lemma_le_byte_places(word: u32)
    ensures
        word == le_byte(word, 0) + 0x100 * le_byte(word, 1) + 0x1_0000 * le_byte(word, 2)
            + 0x100_0000 * le_byte(word, 3),
{
}

/// The byte image of an index sequence has `INDEX_BYTES` bytes per index,
/// and index `k` fills the four bytes from `INDEX_BYTES * k`.
pub proof fn lemma_index_image(indices: Seq<u32>, k: int, place: int)
    requires
        0 <= k < indices.len(),
        0 <= place < 4,
    ensures
        le_bytes(indices).len() == INDEX_BYTES * indices.len(),
        le_bytes(indices)[INDEX_BYTES * k + place] == le_byte(indices[k], place),
{
}

/// The byte image of a vertex sequence has `VERTEX_BYTES` bytes per vertex.
/// Vertex `k` fills the bytes from `VERTEX_BYTES * k`, and its words follow
/// each other there in buffer order, four bytes apart.
pub proof fn lemma_vertex_image(vertices: Seq<Vertex>, k: int, word: int, place: int)
    requires
        0 <= k < vertices.len(),
        0 <= word < VERTEX_WORDS,
        0 <= place < 4,
    ensures
        le_bytes(vertex_words(vertices)).len() == VERTEX_BYTES * vertices.len(),
        le_bytes(vertex_words(vertices))[VERTEX_BYTES * k + 4 * word + place] == le_byte(
            vertices[k].words()[word],
            place,
        ),
{
}

} // verus!
