use vstd::prelude::*;

verus! {

/// The four bytes of `w`, least significant first.
pub open spec fn le_word_bytes(w: u32) -> Seq<u8> {
    seq![(w % 0x100) as u8, ((w / 0x100) % 0x100) as u8, ((w / 0x1_0000) % 0x100) as u8, ((w / 0x100_0000) % 0x100) as u8]
}

/// The four bytes of `w`, most significant first.
pub open spec fn be_word_bytes(w: u32) -> Seq<u8> {
    seq![((w / 0x100_0000) % 0x100) as u8, ((w / 0x1_0000) % 0x100) as u8, ((w / 0x100) % 0x100) as u8, (w % 0x100) as u8]
}

/// The words `ws`, each as its little-endian bytes, one after the other.
pub open spec fn words_le_bytes(ws: Seq<u32>) -> Seq<u8>
    decreases ws.len(),
{
    if ws.len() == 0 {
        seq![]
    } else {
        words_le_bytes(ws.drop_last()) + le_word_bytes(ws.last())
    }
}

/// The words `ws`, each as its big-endian bytes, one after the other.
pub open spec fn words_be_bytes(ws: Seq<u32>) -> Seq<u8>
    decreases ws.len(),
{
    if ws.len() == 0 {
        seq![]
    } else {
        words_be_bytes(ws.drop_last()) + be_word_bytes(ws.last())
    }
}

/// Four bytes per word, in either byte order.
pub proof fn lemma_words_bytes_len(ws: Seq<u32>)
    ensures
        words_le_bytes(ws).len() == 4 * ws.len(),
        words_be_bytes(ws).len() == 4 * ws.len(),
    decreases ws.len(),
{
    if ws.len() > 0 {
        lemma_words_bytes_len(ws.drop_last());
    }
}

/// The word at word index `i` of `b`, read least significant byte first.
pub open spec fn le_word_at(b: Seq<u8>, i: int) -> u32 {
    (b[4 * i] + 0x100 * b[4 * i + 1] + 0x1_0000 * b[4 * i + 2] + 0x100_0000 * b[4 * i + 3]) as u32
}

/// The word at word index `i` of `b`, read most significant byte first.
pub open spec fn be_word_at(b: Seq<u8>, i: int) -> u32 {
    (0x100_0000 * b[4 * i] + 0x1_0000 * b[4 * i + 1] + 0x100 * b[4 * i + 2] + b[4 * i + 3]) as u32
}

/// The bytes `b` as little-endian words.
pub open spec fn le_words(b: Seq<u8>) -> Seq<u32> {
    Seq::new(b.len() / 4, |i: int| le_word_at(b, i))
}

/// The bytes `b` as big-endian words.
pub open spec fn be_words(b: Seq<u8>) -> Seq<u32> {
    Seq::new(b.len() / 4, |i: int| be_word_at(b, i))
}

} // verus!
