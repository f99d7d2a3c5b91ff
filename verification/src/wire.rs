//! The bytes that are uploaded to the GPU.

use vstd::endian::{endianness, Endian};
use vstd::prelude::*;

verus! {

/// Byte `place` of `word`, counted from the least significant.
pub open spec fn byte_of(word: u32, place: int) -> u8 {
    if place == 0 {
        (word % 0x100) as u8
    } else if place == 1 {
        (word / 0x100 % 0x100) as u8
    } else if place == 2 {
        (word / 0x1_0000 % 0x100) as u8
    } else {
        (word / 0x100_0000) as u8
    }
}

/// The four bytes of `word` as they lie in memory, in the byte order of the
/// machine.
pub open spec fn word_bytes(word: u32) -> Seq<u8> {
    match endianness() {
        Endian::Little => seq![
            byte_of(word, 0),
            byte_of(word, 1),
            byte_of(word, 2),
            byte_of(word, 3),
        ],
        Endian::Big => seq![
            byte_of(word, 3),
            byte_of(word, 2),
            byte_of(word, 1),
            byte_of(word, 0),
        ],
    }
}

/// The bytes of `words`, one word after the other.
pub open spec fn words_bytes(words: Seq<u32>) -> Seq<u8> {
    Seq::new(4 * words.len(), |i: int| word_bytes(words[i / 4])[i % 4])
}

/// `bytemuck::bytes_of` on one word: the four bytes of the word as they lie
/// in memory, in the machine's byte order.
#[verifier::external_body]
fn bytes_of_word(word: u32) -> (bytes: [u8; 4])
    ensures
        bytes@ == word_bytes(word),
{
    let bytes = bytemuck::bytes_of(&word);
    [bytes[0], bytes[1], bytes[2], bytes[3]]
}

/// The bytes of `words`, one word after the other, without padding.
pub fn encode_words(words: &[u32]) -> (bytes: Vec<u8>)
    ensures
        bytes@ == words_bytes(words@),
{
    let mut bytes: Vec<u8> = Vec::new();
    let mut i: usize = 0;
    assert(bytes@ =~= words_bytes(words@.take(0)));
    while i < words.len()
        invariant
            i <= words.len(),
            bytes@ == words_bytes(words@.take(i as int)),
        decreases words.len() - i,
    {
        let ghost before = bytes@;
        let quad: [u8; 4] = bytes_of_word(words[i]);
        bytes.push(quad[0]);
        bytes.push(quad[1]);
        bytes.push(quad[2]);
        bytes.push(quad[3]);
        assert(bytes@ =~= words_bytes(words@.take(i + 1))) by {
            assert(bytes@ =~= before + word_bytes(words@[i as int]));
            let longer = words@.take(i + 1);
            assert forall|k: int| 0 <= k < 4 * (i + 1) implies bytes@[k] == words_bytes(
                longer,
            )[k] by {
                if k < 4 * i {
                    assert(words@.take(i as int)[k / 4] == longer[k / 4]);
                } else {
                    assert(k / 4 == i);
                }
            }
        }
        i = i + 1;
    }
    assert(words@.take(i as int) =~= words@);
    bytes
}

proof fn lemma_word_bytes_injective(a: u32, b: u32)
    requires
        word_bytes(a) == word_bytes(b),
    ensures
        a == b,
{
    let (wa, wb) = (word_bytes(a), word_bytes(b));
    assert(wa[0] == wb[0] && wa[1] == wb[1] && wa[2] == wb[2] && wa[3] == wb[3]);
    assert(byte_of(a, 0) == byte_of(b, 0) && byte_of(a, 1) == byte_of(b, 1) && byte_of(a, 2)
        == byte_of(b, 2) && byte_of(a, 3) == byte_of(b, 3));
    lemma_word_from_bytes(a);
    lemma_word_from_bytes(b);
}

proof fn lemma_word_from_bytes(w: u32)
    ensures
        w == byte_of(w, 0) + 0x100 * byte_of(w, 1) + 0x1_0000 * byte_of(w, 2) + 0x100_0000
            * byte_of(w, 3),
{
    assert(w / 0x100 / 0x100 == w / 0x1_0000);
    assert(w / 0x1_0000 / 0x100 == w / 0x100_0000);
}

/// What is uploaded can be read back: words with the same bytes are the same
/// words.
pub proof fn law_encoding_is_injective(a: Seq<u32>, b: Seq<u32>)
    requires
        words_bytes(a) == words_bytes(b),
    ensures
        a == b,
{
    assert(words_bytes(a).len() == 4 * a.len());
    assert(words_bytes(b).len() == 4 * b.len());
    assert forall|i: int| 0 <= i < a.len() implies a[i] == b[i] by {
        assert forall|k: int| 0 <= k < 4 implies word_bytes(a[i])[k] == word_bytes(b[i])[k] by {
            assert(words_bytes(a)[4 * i + k] == word_bytes(a[i])[k]);
            assert(words_bytes(b)[4 * i + k] == word_bytes(b[i])[k]);
        }
        assert(word_bytes(a[i]) =~= word_bytes(b[i]));
        lemma_word_bytes_injective(a[i], b[i]);
    }
    assert(a =~= b);
}

/// The number that a machine reads where word `i` of `bytes` lies.
#[verifier::opaque]
pub open spec fn read_word(bytes: Seq<u8>, i: int) -> int {
    let (a, b, c, d) = (bytes[4 * i], bytes[4 * i + 1], bytes[4 * i + 2], bytes[4 * i + 3]);
    match endianness() {
        Endian::Little => a + 0x100 * b + 0x1_0000 * c + 0x100_0000 * d,
        Endian::Big => d + 0x100 * c + 0x1_0000 * b + 0x100_0000 * a,
    }
}

/// What is uploaded is read as what it was: four bytes for each word, in which
/// the machine reads that word.
pub proof fn law_words_read_back(words: Seq<u32>)
    ensures
        words_bytes(words).len() == 4 * words.len(),
        forall|i: int|
            0 <= i < words.len() ==> #[trigger] read_word(words_bytes(words), i) == words[i],
{
    assert forall|i: int| 0 <= i < words.len() implies #[trigger] read_word(
        words_bytes(words),
        i,
    ) == words[i] by {
        reveal(read_word);
        let bytes = words_bytes(words);
        let quad = word_bytes(words[i]);
        assert(bytes[4 * i] == quad[0]);
        assert(bytes[4 * i + 1] == quad[1]);
        assert(bytes[4 * i + 2] == quad[2]);
        assert(bytes[4 * i + 3] == quad[3]);
        lemma_word_from_bytes(words[i]);
    }
}

} // verus!
