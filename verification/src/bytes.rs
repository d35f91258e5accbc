use vstd::prelude::*;

verus! {

/// The four bytes of `w`, least significant first.
pub open spec fn word_le_bytes(w: u32) -> Seq<u8> {
    seq![
        (w & 0xff) as u8,
        ((w >> 8) & 0xff) as u8,
        ((w >> 16) & 0xff) as u8,
        ((w >> 24) & 0xff) as u8,
    ]
}

/// The four bytes of `w`, most significant first.
pub open spec fn word_be_bytes(w: u32) -> Seq<u8> {
    seq![
        ((w >> 24) & 0xff) as u8,
        ((w >> 16) & 0xff) as u8,
        ((w >> 8) & 0xff) as u8,
        (w & 0xff) as u8,
    ]
}

/// The words laid out one after another, each little-endian.
pub open spec fn le_bytes(words: Seq<u32>) -> Seq<u8> {
    Seq::new(4 * words.len(), |i: int| word_le_bytes(words[i / 4])[i % 4])
}

/// The words laid out one after another, each big-endian.
pub open spec fn be_bytes(words: Seq<u32>) -> Seq<u8> {
    Seq::new(4 * words.len(), |i: int| word_be_bytes(words[i / 4])[i % 4])
}

/// `bytes` is the in-memory image of `words` on this machine: the words in
/// order, four bytes each, in one of the two byte orders a machine can have.
pub open spec fn is_memory_image(words: Seq<u32>, bytes: Seq<u8>) -> bool {
    bytes == le_bytes(words) || bytes == be_bytes(words)
}

/// A memory image has four bytes for every word.
pub proof fn lemma_memory_image_len(words: Seq<u32>, bytes: Seq<u8>)
    requires
        is_memory_image(words, bytes),
    ensures
        bytes.len() == 4 * words.len(),
{
}

/// Copies out the bytes that `words` occupies in memory.
///
/// Trusted: calls `bytemuck::cast_slice` from `u32` to `u8`. That cast
/// reinterprets the slice's memory without changing it, so the result is the
/// words in order, each in the machine's byte order. The cast cannot fail in
/// this direction: the target has alignment one and size one.
#[verifier::external_body]
pub(crate) fn words_as_bytes(words: &Vec<u32>) -> (bytes: Vec<u8>)
    ensures
        is_memory_image(words@, bytes@),
{
    bytemuck::cast_slice::<u32, u8>(words.as_slice()).to_vec()
}

} // verus!
