//! Response frames: every 16-bit word travels as its high byte, its low
//! byte, and the checksum of the two.

use vstd::prelude::*;
use crate::crc::{crc, crc8};
use crate::error::ChecksumError;

verus! {

/// The 16-bit value of a word sent as `hi`, then `lo`.
pub open spec fn word_value(hi: u8, lo: u8) -> u16 {
    (hi as int * 256 + lo as int) as u16
}

/// The value of word `i` of `frame`.
pub open spec fn word_at(frame: Seq<u8>, i: int) -> u16 {
    word_value(frame[3 * i], frame[3 * i + 1])
}

/// Whether the checksum byte of word `i` of `frame` fits its data bytes.
pub open spec fn word_intact(frame: Seq<u8>, i: int) -> bool {
    frame[3 * i + 2] == crc8(seq![frame[3 * i], frame[3 * i + 1]])
}

/// Whether each of the first `words` words of `frame` is intact.
pub open spec fn frame_intact(frame: Seq<u8>, words: int) -> bool {
    forall|i: int| 0 <= i < words ==> word_intact(frame, i)
}

/// The values of the first `words` words of `frame`, in order.
pub open spec fn frame_words(frame: Seq<u8>, words: nat) -> Seq<u16> {
    Seq::new(words, |i: int| word_at(frame, i))
}

/// Checks the first `word_count` words of `buffer` from first to last and
/// returns their values. The first word with a wrong checksum ends the scan
/// and is reported; no value is returned then.
pub fn decode_words(buffer: &[u8], word_count: usize) -> (decoded: Result<Vec<u16>, ChecksumError>)
    requires
        3 * word_count <= buffer@.len(),
    ensures
        decoded is Ok <==> frame_intact(buffer@, word_count as int),
        decoded matches Ok(words) ==> words@ == frame_words(buffer@, word_count as nat),
        decoded matches Err(e) ==> e.word < word_count && !word_intact(buffer@, e.word as int)
            && frame_intact(buffer@, e.word as int),
{
    let mut words: Vec<u16> = Vec::new();
    let len: usize = buffer.len();
    let mut i: usize = 0;
    while i < word_count
        invariant
            3 * word_count <= buffer@.len(),
            buffer@.len() == len,
            i <= word_count,
            frame_intact(buffer@, i as int),
            words@ == frame_words(buffer@, i as nat),
        decreases word_count - i,
    {
        let hi: u8 = buffer[3 * i];
        let lo: u8 = buffer[3 * i + 1];
        let sum: u8 = buffer[3 * i + 2];
        let data: [u8; 2] = [hi, lo];
        if crc(&data) != sum {
            assert(!word_intact(buffer@, i as int));
            return Err(ChecksumError { word: i });
        }
        let value: u16 = (hi as u16) * 256 + (lo as u16);
        words.push(value);
        i = i + 1;
    }
    Ok(words)
}

} // verus!
