use vstd::prelude::*;

verus! {

/// Size of one card block in bytes.
pub const BLOCK_SIZE: usize = 0x200;

/// Number of blocks on a card or in a range.
pub type BlockCount = u32;

/// Card-relative address of a block. Addressing is linear whatever the
/// card's capacity class.
pub type BlockIndex = u32;

/// One block of card data.
#[derive(Clone, Copy)]
pub struct Block(pub [u8; BLOCK_SIZE]);

impl Block {
    /// A block whose bytes are all zero.
    pub fn zeroed() -> (block: Self)
        ensures
            forall|i: int| 0 <= i < BLOCK_SIZE ==> block.0[i] == 0u8,
    {
        Block([0u8; BLOCK_SIZE])
    }
}

} // verus!
