use vstd::prelude::*;
use vstd::arithmetic::power2::{lemma2_to64, pow2};
use crate::block::BlockCount;

verus! {

/// The card identification register: 128 bits, most significant word first.
pub type CID = [u32; 4];

/// Protocol version and capacity class of a card.
#[derive(Copy, Clone, Debug, PartialEq, Eq)]
pub enum CardVersion {
    /// Version 1, standard capacity.
    V1SC,
    /// Version 2, standard capacity.
    V2SC,
    /// Version 2, high or extended capacity.
    V2HC,
}

/// The card-specific data register in one of its two layouts: 128 bits, most
/// significant word first, so that word 0 holds bits 127 to 96.
#[derive(Copy, Clone, Debug, PartialEq, Eq)]
pub enum CSD {
    /// The layout of standard-capacity cards.
    V1([u32; 4]),
    /// The layout of high- and extended-capacity cards.
    V2([u32; 4]),
}

/// `C_SIZE` of the standard-capacity layout: the twelve register bits 73 to
/// 62, which straddle words 1 and 2.
pub open spec fn c_size_v1(words: [u32; 4]) -> u32 {
    (words[1] & 0x3ff) << 2 | words[2] >> 30
}

/// `C_SIZE_MULT` of the standard-capacity layout: the three register bits 49
/// to 47.
pub open spec fn c_size_mult_v1(words: [u32; 4]) -> u32 {
    (words[2] >> 15) & 0x7
}

/// `C_SIZE` of the high-capacity layout: the twenty-two register bits 69 to
/// 48, which straddle words 1 and 2.
pub open spec fn c_size_v2(words: [u32; 4]) -> u32 {
    (words[1] & 0x3f) << 16 | words[2] >> 16
}

/// `n` shifted left by `k` places within 32 bits; bits shifted past bit 31
/// are lost.
pub open spec fn shifted(n: u32, k: u32) -> u32 {
    n << k
}

impl CSD {
    /// The register's four words.
    pub open spec fn words(self) -> [u32; 4] {
        match self {
            CSD::V1(words) => words,
            CSD::V2(words) => words,
        }
    }

    /// The number of blocks that the register describes.
    pub open spec fn blocks(self) -> u32 {
        match self {
            CSD::V1(words) => shifted(
                (c_size_v1(words) + 1) as u32,
                (c_size_mult_v1(words) + 2) as u32,
            ),
            CSD::V2(words) => shifted((c_size_v2(words) + 1) as u32, 10),
        }
    }

    /// The card's capacity in blocks. For the standard-capacity layout it is
    /// `(C_SIZE + 1) << (C_SIZE_MULT + 2)`, for the high-capacity layout
    /// `(C_SIZE + 1) << 10`, computed in 32 bits.
    pub fn capacity(&self) -> (blocks: BlockCount)
        ensures
            blocks == self.blocks(),
            self is V1 ==> blocks == (c_size_v1(self.words()) + 1) * pow2(
                (c_size_mult_v1(self.words()) + 2) as nat,
            ),
            self is V2 && c_size_v2(self.words()) < 0x3f_ffff ==> blocks == (c_size_v2(self.words())
                + 1) * 1024,
            self is V2 && c_size_v2(self.words()) == 0x3f_ffff ==> blocks == 0,
    {
        match self {
            CSD::V1(words) => {
                let w1: u32 = words[1];
                let w2: u32 = words[2];
                let field: u32 = (w1 & 0x3ff) << 2 | w2 >> 30;
                let mult: u32 = (w2 >> 15) & 0x7;
                proof {
                    assert(((w1 & 0x3ff) << 2 | w2 >> 30) <= 0xfff) by (bit_vector);
                    assert(((w2 >> 15) & 0x7) <= 7) by (bit_vector);
                    lemma_shift_small((field + 1) as u32, (mult + 2) as u32);
                }
                let c_size: u32 = field + 1;
                let c_size_mult: u32 = mult + 2;
                c_size << c_size_mult
            },
            CSD::V2(words) => {
                let w1: u32 = words[1];
                let w2: u32 = words[2];
                let field: u32 = (w1 & 0x3f) << 16 | w2 >> 16;
                proof {
                    assert(((w1 & 0x3f) << 16 | w2 >> 16) <= 0x3f_ffff) by (bit_vector);
                    lemma_shift_ten((field + 1) as u32);
                }
                let c_size: u32 = field + 1;
                c_size << 10
            },
        }
    }
}

/// A value of at most thirteen bits shifted by two to nine places is the
/// value times that power of two: nothing is lost.
pub proof fn lemma_shift_small(n: u32, k: u32)
    requires
        n <= 0x1000,
        2 <= k <= 9,
    ensures
        shifted(n, k) == n * pow2(k as nat),
{
    lemma2_to64();
    assert(n <= 0x1000 && k == 2 ==> n << k == n * 4) by (bit_vector);
    assert(n <= 0x1000 && k == 3 ==> n << k == n * 8) by (bit_vector);
    assert(n <= 0x1000 && k == 4 ==> n << k == n * 16) by (bit_vector);
    assert(n <= 0x1000 && k == 5 ==> n << k == n * 32) by (bit_vector);
    assert(n <= 0x1000 && k == 6 ==> n << k == n * 64) by (bit_vector);
    assert(n <= 0x1000 && k == 7 ==> n << k == n * 128) by (bit_vector);
    assert(n <= 0x1000 && k == 8 ==> n << k == n * 256) by (bit_vector);
    assert(n <= 0x1000 && k == 9 ==> n << k == n * 512) by (bit_vector);
}

/// A value below 2^22 shifted by ten places is the value times 1024; 2^22
/// itself shifts out of 32 bits and leaves zero.
pub proof fn lemma_shift_ten(n: u32)
    requires
        n <= 0x40_0000,
    ensures
        n < 0x40_0000 ==> shifted(n, 10) == n * 1024,
        n == 0x40_0000 ==> shifted(n, 10) == 0,
{
    assert(n < 0x40_0000 ==> n << 10 == n * 1024) by (bit_vector);
    assert(n == 0x40_0000 ==> n << 10 == 0) by (bit_vector);
}

} // verus!
