use vstd::prelude::*;
use crate::error::Error;

verus! {

/// Width of the data bus between host and card.
#[derive(Copy, Clone, Debug, PartialEq, Eq)]
pub enum BusWidth {
    /// One data line.
    Bits1,
    /// Four data lines.
    Bits4,
}

/// The 512-bit SD status register as the card sends it, first byte first.
#[derive(Copy, Clone)]
pub struct SDStatus([u8; 64]);

/// The bus width that the two-bit width field encodes, if any.
pub open spec fn bus_width_of(field: u8) -> Result<BusWidth, Error> {
    if field == 0 {
        Ok(BusWidth::Bits1)
    } else if field == 2 {
        Ok(BusWidth::Bits4)
    } else {
        Err(Error::InvalidValue)
    }
}

/// The size in bytes of an allocation unit with the given code. The codes 1
/// to 15 stand for 16 KiB up to 64 MiB; 0 and anything above 15 stand for
/// nothing.
pub open spec fn au_size_of(code: u8) -> Result<usize, Error> {
    if code == 0x1 {
        Ok(0x4000usize)
    } else if code == 0x2 {
        Ok(0x8000usize)
    } else if code == 0x3 {
        Ok(0x1_0000usize)
    } else if code == 0x4 {
        Ok(0x2_0000usize)
    } else if code == 0x5 {
        Ok(0x4_0000usize)
    } else if code == 0x6 {
        Ok(0x8_0000usize)
    } else if code == 0x7 {
        Ok(0x10_0000usize)
    } else if code == 0x8 {
        Ok(0x20_0000usize)
    } else if code == 0x9 {
        Ok(0x40_0000usize)
    } else if code == 0xa {
        Ok(0x80_0000usize)
    } else if code == 0xb {
        Ok(0xc0_0000usize)
    } else if code == 0xc {
        Ok(0x100_0000usize)
    } else if code == 0xd {
        Ok(0x180_0000usize)
    } else if code == 0xe {
        Ok(0x200_0000usize)
    } else if code == 0xf {
        Ok(0x400_0000usize)
    } else {
        Err(Error::InvalidValue)
    }
}

/// Decodes an allocation-unit size code into a size in bytes.
pub fn allocation_unit_size(code: u8) -> (size: Result<usize, Error>)
    ensures
        size == au_size_of(code),
        size is Err <==> code == 0 || code > 0xf,
{
    Ok(
        match code {
            0x1 => 16 * 1024,
            0x2 => 32 * 1024,
            0x3 => 64 * 1024,
            0x4 => 128 * 1024,
            0x5 => 256 * 1024,
            0x6 => 512 * 1024,
            0x7 => 1024 * 1024,
            0x8 => 2 * 1024 * 1024,
            0x9 => 4 * 1024 * 1024,
            0xa => 8 * 1024 * 1024,
            0xb => 12 * 1024 * 1024,
            0xc => 16 * 1024 * 1024,
            0xd => 24 * 1024 * 1024,
            0xe => 32 * 1024 * 1024,
            0xf => 64 * 1024 * 1024,
            _ => return Err(Error::InvalidValue),
        },
    )
}

impl View for SDStatus {
    type V = Seq<u8>;

    closed spec fn view(&self) -> Seq<u8> {
        self.0@
    }
}

impl SDStatus {
    /// Wraps the 64 bytes of a status register as the card sent them.
    pub fn new(raw: [u8; 64]) -> (status: Self)
        ensures
            status@ == raw@,
            status@.len() == 64,
    {
        SDStatus(raw)
    }

    /// The bus width in use: the top two bits of byte 0.
    pub fn data_bus_width(&self) -> (width: Result<BusWidth, Error>)
        ensures
            width == bus_width_of(self@[0x00] >> 6),
    {
        match self.0[0x00] >> 6 {
            0 => Ok(BusWidth::Bits1),
            2 => Ok(BusWidth::Bits4),
            _ => Err(Error::InvalidValue),
        }
    }

    /// The size of an allocation unit in bytes: the code in the top four
    /// bits of byte 10, decoded.
    pub fn au_size(&self) -> (size: Result<usize, Error>)
        ensures
            size == au_size_of(self@[0x0a] >> 4),
            size is Err <==> self@[0x0a] >> 4 == 0,
    {
        let byte: u8 = self.0[0x0a];
        proof {
            assert(byte >> 4 <= 0xf) by (bit_vector);
        }
        allocation_unit_size(byte >> 4)
    }

    /// The card type: bytes 2 and 3 as one big-endian number.
    pub fn sd_card_type(&self) -> (kind: usize)
        ensures
            kind == self@[0x02] * 256 + self@[0x03],
    {
        let hi: u8 = self.0[0x02];
        let lo: u8 = self.0[0x03];
        let word: u32 = lo as u32 | ((hi as u32) << 8);
        proof {
            assert((lo as u32 | ((hi as u32) << 8)) == hi * 256 + lo) by (bit_vector);
        }
        word as usize
    }

    /// The number of allocation units erased at a time: bytes 11 and 12 as
    /// one big-endian number.
    pub fn erase_size(&self) -> (units: usize)
        ensures
            units == self@[0x0b] * 256 + self@[0x0c],
    {
        let hi: u8 = self.0[0x0b];
        let lo: u8 = self.0[0x0c];
        let word: u32 = lo as u32 | ((hi as u32) << 8);
        proof {
            assert((lo as u32 | ((hi as u32) << 8)) == hi * 256 + lo) by (bit_vector);
        }
        word as usize
    }

    /// The number of seconds it takes to erase one erase area: the top six
    /// bits of byte 13.
    pub fn erase_timeout(&self) -> (seconds: usize)
        ensures
            seconds == self@[0x0d] >> 2,
            seconds == self@[0x0d] / 4,
            seconds < 64,
    {
        let byte: u8 = self.0[0x0d];
        proof {
            assert(byte >> 2 == byte / 4) by (bit_vector);
        }
        (byte >> 2) as usize
    }

    /// Whether the card supports discard: bit 1 of byte 24.
    pub fn discard_support(&self) -> (supported: bool)
        ensures
            supported == ((self@[0x18] >> 1) & 1 != 0),
    {
        (self.0[0x18] >> 1) & 1 != 0
    }

    /// Whether the card supports full user area logical erase: bit 0 of
    /// byte 24.
    pub fn fule_support(&self) -> (supported: bool)
        ensures
            supported == (self@[0x18] & 1 != 0),
    {
        self.0[0x18] & 1 != 0
    }
}

} // verus!
