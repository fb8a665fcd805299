//! The 8-bit checksum that guards every 16-bit word on the wire.
//!
//! CRC-8 with polynomial `0x31` (x^8 + x^5 + x^4 + 1), initial value `0xFF`,
//! no reflection and no final XOR.

use vstd::prelude::*;

verus! {

/// One shift of the checksum register: the top bit leaves on the left, and
/// where it was set the polynomial is folded in.
pub open spec fn crc8_shift(c: u8) -> u8 {
    if c & 0x80 == 0 {
        c << 1
    } else {
        (c << 1) ^ 0x31
    }
}

/// `n` shifts of the checksum register in a row.
pub open spec fn crc8_shifts(c: u8, n: nat) -> u8
    decreases n,
{
    if n == 0 {
        c
    } else {
        crc8_shift(crc8_shifts(c, (n - 1) as nat))
    }
}

/// The register after one more input byte: the byte is XORed in, then the
/// register is shifted eight times.
pub open spec fn crc8_update(c: u8, byte: u8) -> u8 {
    crc8_shifts(c ^ byte, 8)
}

/// The checksum of `data`: the register starts at `0xFF` and takes in the
/// bytes from first to last.
pub open spec fn crc8(data: Seq<u8>) -> u8
    decreases data.len(),
{
    if data.len() == 0 {
        0xFF
    } else {
        crc8_update(crc8(data.drop_last()), data.last())
    }
}

/// Computes the checksum of `data`.
pub fn crc(data: &[u8]) -> (sum: u8)
    ensures
        sum == crc8(data@),
{
    let mut crc: u8 = 0xFF;
    let mut i: usize = 0;
    while i < data.len()
        invariant
            i <= data.len(),
            crc == crc8(data@.take(i as int)),
        decreases data.len() - i,
    {
        let ghost before = crc;
        crc = crc ^ data[i];
        let mut k: u8 = 0;
        while k < 8
            invariant
                k <= 8,
                crc == crc8_shifts(before ^ data@[i as int], k as nat),
            decreases 8 - k,
        {
            if crc & 0x80 == 0 {
                crc = crc << 1;
            } else {
                crc = (crc << 1) ^ 0x31u8;
            }
            k = k + 1;
        }
        proof {
            let upto = data@.take(i as int + 1);
            assert(upto.drop_last() =~= data@.take(i as int));
        }
        i = i + 1;
    }
    proof {
        assert(data@.take(data@.len() as int) =~= data@);
    }
    crc
}

/// A shift of the register loses nothing: two registers that differ still
/// differ after it.
pub proof fn lemma_crc8_shift_injective(x: u8, y: u8)
    ensures
        crc8_shift(x) == crc8_shift(y) ==> x == y,
{
    assert(crc8_shift(x) == crc8_shift(y) ==> x == y) by (bit_vector);
}

/// Any number of shifts keeps two different registers different.
pub proof fn lemma_crc8_shifts_injective(x: u8, y: u8, n: nat)
    ensures
        crc8_shifts(x, n) == crc8_shifts(y, n) ==> x == y,
    decreases n,
{
    if n > 0 {
        lemma_crc8_shifts_injective(x, y, (n - 1) as nat);
        lemma_crc8_shift_injective(crc8_shifts(x, (n - 1) as nat), crc8_shifts(y, (n - 1) as nat));
    }
}

/// Taking in a byte maps different (register, byte) pairs that agree in one
/// of the two parts to different registers.
pub proof fn lemma_crc8_update_injective(c1: u8, b1: u8, c2: u8, b2: u8)
    requires
        c1 == c2 || b1 == b2,
    ensures
        crc8_update(c1, b1) == crc8_update(c2, b2) ==> c1 == c2 && b1 == b2,
{
    lemma_crc8_shifts_injective(c1 ^ b1, c2 ^ b2, 8);
    assert(c1 ^ b1 == c2 ^ b2 && (c1 == c2 || b1 == b2) ==> c1 == c2 && b1 == b2)
        by (bit_vector);
}

/// Two inputs of one length that differ in exactly one byte have different
/// checksums.
pub proof fn lemma_crc8_detects_one_changed_byte(d1: Seq<u8>, d2: Seq<u8>, at: int)
    requires
        d1.len() == d2.len(),
        0 <= at < d1.len(),
        d1[at] != d2[at],
        forall|i: int| 0 <= i < d1.len() && i != at ==> d1[i] == d2[i],
    ensures
        crc8(d1) != crc8(d2),
    decreases d1.len(),
{
    let front1 = d1.drop_last();
    let front2 = d2.drop_last();
    if at == d1.len() - 1 {
        assert(front1 =~= front2);
    } else {
        lemma_crc8_detects_one_changed_byte(front1, front2, at);
    }
    lemma_crc8_update_injective(crc8(front1), d1.last(), crc8(front2), d2.last());
}

/// `data` with one bit inverted. Bits are counted through the whole input:
/// bit `8 * i + k` is bit `k` of byte `i`, with bit 0 the lowest.
pub open spec fn flip_bit(data: Seq<u8>, bit: int) -> Seq<u8> {
    data.update(bit / 8, data[bit / 8] ^ (1u8 << ((bit % 8) as u8)))
}

/// Inverting any single bit of an input changes its checksum. This holds of
/// inputs of every length, the two data bytes of a word among them.
pub proof fn lemma_crc8_single_bit_flip(data: Seq<u8>, bit: int)
    requires
        0 <= bit < 8 * data.len(),
    ensures
        crc8(flip_bit(data, bit)) != crc8(data),
{
    let at = bit / 8;
    let k = (bit % 8) as u8;
    let byte = data[at];
    assert(k < 8 ==> byte ^ (1u8 << k) != byte) by (bit_vector);
    lemma_crc8_detects_one_changed_byte(flip_bit(data, bit), data, at);
}

/// The eight shifts of one input byte, written out.
pub open spec fn crc8_eight_shifts(c: u8) -> u8 {
    crc8_shift(
        crc8_shift(
            crc8_shift(crc8_shift(crc8_shift(crc8_shift(crc8_shift(crc8_shift(c)))))),
        ),
    )
}

/// The reference vector of the sensor's datasheet: the word `0xBEEF` has the
/// checksum `0x92`.
pub proof fn lemma_crc8_reference_vector()
    ensures
        crc8(seq![0xBEu8, 0xEFu8]) == 0x92,
{
    let word = seq![0xBEu8, 0xEFu8];
    let first = word.drop_last();
    assert(forall|c: u8| crc8_shifts(c, 8) == crc8_eight_shifts(c)) by {
        reveal_with_fuel(crc8_shifts, 9);
    }
    assert(crc8(first.drop_last()) == 0xFF);
    assert(crc8_eight_shifts(0xFFu8 ^ 0xBEu8) == 0x0C) by (bit_vector);
    assert(crc8(first) == 0x0C);
    assert(crc8_eight_shifts(0x0Cu8 ^ 0xEFu8) == 0x92) by (bit_vector);
}

} // verus!
