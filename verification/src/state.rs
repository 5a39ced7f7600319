//! The serialised state: one little-endian 32-bit word per parameter, in
//! index order. A word is the bit pattern of the value the engine stores.
//!
//! The length of a block names its layout: the current one, or one written
//! by an earlier build before parameters were appended.
use vstd::prelude::*;

use crate::contract::{is_layout_count, PARAMETER_COUNT, PREVIOUS_PARAMETER_COUNTS};

verus! {

/// Length of the serialised state, in bytes.
pub const STATE_BYTES: usize = PARAMETER_COUNT * 4;

/// The four bytes of a word, least significant first.
pub open spec fn word_bytes(word: u32) -> Seq<u8> {
    seq![word as u8, (word >> 8) as u8, (word >> 16) as u8, (word >> 24) as u8]
}

/// The word whose little-endian bytes are `b0` to `b3`.
pub open spec fn word_of(b0: u8, b1: u8, b2: u8, b3: u8) -> u32 {
    (b0 as u32) | ((b1 as u32) << 8u32) | ((b2 as u32) << 16u32) | ((b3 as u32) << 24u32)
}

/// The bytes of a sequence of words, one word after another.
pub open spec fn encoded(words: Seq<u32>) -> Seq<u8> {
    Seq::new(4 * words.len(), |k: int| word_bytes(words[k / 4])[k % 4])
}

/// The words of a sequence of bytes, four bytes to a word.
pub open spec fn decoded(bytes: Seq<u8>) -> Seq<u32> {
    Seq::new(
        bytes.len() / 4,
        |w: int| word_of(bytes[4 * w], bytes[4 * w + 1], bytes[4 * w + 2], bytes[4 * w + 3]),
    )
}

/// The number of words a block of `length` bytes holds, if that length
/// names a layout.
pub open spec fn layout_of(length: int) -> Option<int> {
    if length % 4 == 0 && is_layout_count(length / 4) {
        Some(length / 4)
    } else {
        None
    }
}

proof fn lemma_word_round_trip(word: u32)
    ensures
        word_of(word as u8, (word >> 8) as u8, (word >> 16) as u8, (word >> 24) as u8) == word,
{
    assert(((word as u8) as u32) | ((((word >> 8u32) as u8) as u32) << 8u32) | ((((word
        >> 16u32) as u8) as u32) << 16u32) | ((((word >> 24u32) as u8) as u32) << 24u32) == word)
        by (bit_vector);
}

/// The number of words in a block of `length` bytes, or `None` when the
/// length is not a whole number of words or names no layout.
pub fn layout_count(length: usize) -> (count: Option<usize>)
    ensures
        match count {
            Some(c) => layout_of(length as int) == Some(c as int),
            None => layout_of(length as int) is None,
        },
{
    if length % 4 != 0 {
        return None;
    }
    let count = length / 4;
    if count != PARAMETER_COUNT && count != PREVIOUS_PARAMETER_COUNTS[0] {
        return None;
    }
    Some(count)
}

/// Writes the block into the front of `destination` and returns its length,
/// or `None`, writing nothing, when it does not fit.
pub fn save_state(words: &[u32; PARAMETER_COUNT], destination: &mut [u8]) -> (written: Option<
    usize,
>)
    ensures
        written is Some <==> old(destination)@.len() >= STATE_BYTES,
        final(destination)@.len() == old(destination)@.len(),
        match written {
            Some(n) => {
                &&& n == STATE_BYTES
                &&& final(destination)@.subrange(0, STATE_BYTES as int) == encoded(words@)
                &&& final(destination)@.subrange(STATE_BYTES as int, old(destination)@.len() as int)
                    == old(destination)@.subrange(STATE_BYTES as int, old(destination)@.len() as int)
            },
            None => final(destination)@ == old(destination)@,
        },
{
    if destination.len() < STATE_BYTES {
        return None;
    }
    let ghost original = destination@;
    let mut w: usize = 0;
    while w < PARAMETER_COUNT
        invariant
            w <= PARAMETER_COUNT,
            destination@.len() == original.len(),
            original.len() >= STATE_BYTES,
            forall|k: int| 0 <= k < 4 * w ==> #[trigger] destination@[k] == encoded(words@)[k],
            forall|k: int| 4 * w <= k < original.len() ==> #[trigger] destination@[k] == original[k],
        decreases PARAMETER_COUNT - w,
    {
        let word = words[w];
        destination[4 * w] = word as u8;
        destination[4 * w + 1] = (word >> 8) as u8;
        destination[4 * w + 2] = (word >> 16) as u8;
        destination[4 * w + 3] = (word >> 24) as u8;
        assert forall|k: int| 4 * w <= k < 4 * w + 4 implies #[trigger] destination@[k] == encoded(
            words@,
        )[k] by {
            assert(k / 4 == w);
        }
        w += 1;
    }
    assert(destination@.subrange(0, STATE_BYTES as int) =~= encoded(words@));
    assert(destination@.subrange(STATE_BYTES as int, original.len() as int) =~= original.subrange(
        STATE_BYTES as int,
        original.len() as int,
    ));
    Some(STATE_BYTES)
}

/// Reads a saved block, including one written by an earlier build, into
/// the front of `words` and returns how many words it held. Its length
/// identifies its layout; any other length is refused and nothing is read.
pub fn load_state(state: &[u8], words: &mut [u32; PARAMETER_COUNT]) -> (count: Option<usize>)
    ensures
        match count {
            Some(c) => {
                &&& layout_of(state@.len() as int) == Some(c as int)
                &&& final(words)@.subrange(0, c as int) == decoded(state@)
                &&& final(words)@.subrange(c as int, PARAMETER_COUNT as int) == old(
                    words,
                )@.subrange(c as int, PARAMETER_COUNT as int)
            },
            None => {
                &&& layout_of(state@.len() as int) is None
                &&& final(words)@ == old(words)@
            },
        },
{
    let length = state.len();
    let count = match layout_count(length) {
        Some(count) => count,
        None => return None,
    };
    let ghost original = words@;
    let mut w: usize = 0;
    while w < count
        invariant
            count == state@.len() / 4,
            4 * count == state@.len(),
            length == state@.len(),
            count <= PARAMETER_COUNT,
            w <= count,
            words@.len() == PARAMETER_COUNT,
            forall|v: int| 0 <= v < w ==> #[trigger] words@[v] == decoded(state@)[v],
            forall|v: int| w <= v < PARAMETER_COUNT ==> #[trigger] words@[v] == original[v],
        decreases count - w,
    {
        let word = (state[4 * w] as u32) | ((state[4 * w + 1] as u32) << 8) | ((state[4 * w + 2]
            as u32) << 16) | ((state[4 * w + 3] as u32) << 24);
        words[w] = word;
        w += 1;
    }
    assert(words@.subrange(0, count as int) =~= decoded(state@));
    assert(words@.subrange(count as int, PARAMETER_COUNT as int) =~= original.subrange(
        count as int,
        PARAMETER_COUNT as int,
    ));
    Some(count)
}

/// Reading back what was written gives the words that were written.
pub proof fn lemma_state_round_trips(words: Seq<u32>)
    ensures
        decoded(encoded(words)) == words,
{
    let bytes = encoded(words);
    assert forall|w: int| 0 <= w < words.len() implies #[trigger] decoded(bytes)[w] == words[w] by {
        assert((4 * w) / 4 == w);
        assert((4 * w + 1) / 4 == w);
        assert((4 * w + 2) / 4 == w);
        assert((4 * w + 3) / 4 == w);
        lemma_word_round_trip(words[w]);
    }
    assert(decoded(bytes) =~= words);
}

/// A block of the current layout, or of an earlier one, is read; a length
/// that is not a whole number of words, or that names no layout, is refused.
pub proof fn lemma_only_layouts_are_read(length: int)
    requires
        length >= 0,
    ensures
        layout_of(length) is Some <==> (length == 4 * PARAMETER_COUNT || length == 4
            * PREVIOUS_PARAMETER_COUNTS[0]),
{
}

/// Each word is written least significant byte first: byte `k` of word
/// `w` is the word's `k`-th base-256 digit.
pub proof fn lemma_words_are_little_endian(words: Seq<u32>, w: int)
    requires
        0 <= w < words.len(),
    ensures
        encoded(words).len() == 4 * words.len(),
        encoded(words)[4 * w] == words[w] % 256,
        encoded(words)[4 * w + 1] == (words[w] / 256) % 256,
        encoded(words)[4 * w + 2] == (words[w] / 65536) % 256,
        encoded(words)[4 * w + 3] == words[w] / 16777216,
{
    let x = words[w];
    assert((4 * w) / 4 == w && (4 * w) % 4 == 0);
    assert((4 * w + 1) / 4 == w && (4 * w + 1) % 4 == 1);
    assert((4 * w + 2) / 4 == w && (4 * w + 2) % 4 == 2);
    assert((4 * w + 3) / 4 == w && (4 * w + 3) % 4 == 3);
    assert((x as u8) as int == x % 256) by (bit_vector);
    assert(((x >> 8u32) as u8) as int == (x / 256) % 256) by (bit_vector);
    assert(((x >> 16u32) as u8) as int == (x / 65536) % 256) by (bit_vector);
    assert(((x >> 24u32) as u8) as int == x / 16777216) by (bit_vector);
}

/// The blocks read are 72 bytes (the current layout, 18 words) and 56 bytes
/// (the earlier one, 14 words); every other length is refused.
pub proof fn lemma_the_layout_lengths(length: int)
    requires
        length >= 0,
    ensures
        layout_of(length) == if length == 72 {
            Some(18int)
        } else if length == 56 {
            Some(14int)
        } else {
            None
        },
        STATE_BYTES == 72,
{
}

} // verus!
