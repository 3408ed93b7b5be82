use vstd::prelude::*;
use vstd::arithmetic::power2::{lemma2_to64, lemma_pow2_strictly_increases, pow2};

verus! {

/// The length in bytes that a transfer must stay below: the channel counts
/// 32-bit words in sixteen bits.
pub const LENGTH_CEILING: u32 = 0x4_0000;

/// Which way the data moves between memory and the controller's FIFO.
#[derive(Copy, Clone, Debug, PartialEq, Eq)]
pub enum Direction {
    /// From the card into memory.
    Receive,
    /// From memory to the card.
    Send,
}

/// The setting of the DMA channel for one transfer. The memory side counts up
/// from the buffer's address in 32-bit words; the peripheral side stays on the
/// controller's FIFO.
#[derive(Copy, Clone, Debug, PartialEq, Eq)]
pub struct Transfer {
    /// Which way the data moves.
    pub direction: Direction,
    /// The number of 32-bit words to move.
    pub words: u32,
}

/// Whether `n` is a power of two.
pub open spec fn is_power_of_two(n: int) -> bool {
    exists|k: nat| n == pow2(k)
}

/// Whether a transfer of `length` bytes can be set up: the length is a power
/// of two, a whole number of 32-bit words, and below the ceiling.
pub open spec fn valid_length(length: int) -> bool {
    is_power_of_two(length) && length % 4 == 0 && length < LENGTH_CEILING
}

/// The lengths that can be set up are the sixteen powers of two from 4 up to
/// half the ceiling.
pub proof fn lemma_valid_lengths(length: int)
    ensures
        valid_length(length) <==> exists|k: nat| 2 <= k <= 17 && length == pow2(k),
{
    lemma2_to64();
    if valid_length(length) {
        let k = choose|k: nat| length == pow2(k);
        if k >= 18 {
            if k > 18 {
                lemma_pow2_strictly_increases(18, k);
            }
        }
        assert(2 <= k <= 17 && length == pow2(k));
    }
    if exists|k: nat| 2 <= k <= 17 && length == pow2(k) {
        let k = choose|k: nat| 2 <= k <= 17 && length == pow2(k);
        assert(length == pow2(k));
    }
}

impl Transfer {
    /// Whether a transfer of `length` bytes can be set up.
    pub fn accepts(length: u32) -> (valid: bool)
        ensures
            valid == valid_length(length as int),
    {
        let valid = 4 <= length && length < LENGTH_CEILING && length & (length - 1) == 0;
        proof {
            lemma_valid_lengths(length as int);
            lemma2_to64();
            assert((4 <= length && length < 0x4_0000 && length & ((length - 1) as u32) == 0) <==> (
            length == 0x4 || length == 0x8 || length == 0x10 || length == 0x20 || length == 0x40
                || length == 0x80 || length == 0x100 || length == 0x200 || length == 0x400
                || length == 0x800 || length == 0x1000 || length == 0x2000 || length == 0x4000
                || length == 0x8000 || length == 0x1_0000 || length == 0x2_0000)) by (bit_vector);
            if valid {
                let k: nat = if length == 0x4 {
                    2
                } else if length == 0x8 {
                    3
                } else if length == 0x10 {
                    4
                } else if length == 0x20 {
                    5
                } else if length == 0x40 {
                    6
                } else if length == 0x80 {
                    7
                } else if length == 0x100 {
                    8
                } else if length == 0x200 {
                    9
                } else if length == 0x400 {
                    10
                } else if length == 0x800 {
                    11
                } else if length == 0x1000 {
                    12
                } else if length == 0x2000 {
                    13
                } else if length == 0x4000 {
                    14
                } else if length == 0x8000 {
                    15
                } else if length == 0x1_0000 {
                    16
                } else {
                    17
                };
                assert(2 <= k <= 17 && length as int == pow2(k));
            }
        }
        valid
    }

    /// The channel setting that moves `length` bytes.
    pub fn new(length: u32, direction: Direction) -> (transfer: Self)
        requires
            valid_length(length as int),
        ensures
            transfer.direction == direction,
            transfer.words * 4 == length,
    {
        Transfer { direction, words: length / 4 }
    }
}

} // verus!
