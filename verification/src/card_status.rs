use vstd::prelude::*;

verus! {

/// The status bits that report an error of any kind.
pub const ERROR_MASK: u32 = 0xfff98004;

/// Where the card stands in the SD access state machine.
#[derive(Copy, Clone, Debug, PartialEq, Eq)]
pub enum CardState {
    Idle,
    Ready,
    Ident,
    Standby,
    Transmit,
    Data,
    Receive,
    Program,
    Disabled,
    Reserved,
}

/// The 32-bit status word a card reports in its short responses.
#[derive(Copy, Clone, Debug, PartialEq, Eq)]
pub struct CardStatus(u32);

/// Bit `n` of `word`, counted from the least significant bit.
pub open spec fn bit(word: u32, n: u32) -> bool {
    (word >> n) & 1 != 0
}

/// Tests bit `n` of `word`, counted from the least significant bit.
pub fn test_bit(word: u32, n: u32) -> (set: bool)
    requires
        n < 32,
    ensures
        set == bit(word, n),
{
    (word >> n) & 1 != 0
}

/// The four-bit state field of a status word: bits 9 to 12.
pub open spec fn state_field(word: u32) -> u32 {
    (word >> 9) & 0xf
}

/// The card state that a value of the state field stands for.
pub open spec fn state_of(field: u32) -> CardState {
    if field == 0 {
        CardState::Idle
    } else if field == 1 {
        CardState::Ready
    } else if field == 2 {
        CardState::Ident
    } else if field == 3 {
        CardState::Standby
    } else if field == 4 {
        CardState::Transmit
    } else if field == 5 {
        CardState::Data
    } else if field == 6 {
        CardState::Receive
    } else if field == 7 {
        CardState::Program
    } else if field == 8 {
        CardState::Disabled
    } else {
        CardState::Reserved
    }
}

impl View for CardStatus {
    type V = u32;

    closed spec fn view(&self) -> u32 {
        self.0
    }
}

impl CardStatus {
    /// Wraps a status word as the card sent it.
    pub fn new(raw: u32) -> (status: Self)
        ensures
            status@ == raw,
    {
        CardStatus(raw)
    }

    /// The status word as the card sent it.
    pub fn raw(&self) -> (raw: u32)
        ensures
            raw == self@,
    {
        self.0
    }

    /// Whether any of the error bits is set.
    pub fn any_error(&self) -> (error: bool)
        ensures
            error == (self@ & ERROR_MASK != 0),
            error == (self@ & 0xfff98004 != 0),
    {
        self.0 & ERROR_MASK != 0
    }

    /// Whether the card can take data: bit 8.
    pub fn ready_for_data(&self) -> (ready: bool)
        ensures
            ready == bit(self@, 8),
    {
        test_bit(self.0, 8)
    }

    /// Whether the card expects an application command next: bit 5.
    pub fn app_cmd(&self) -> (expected: bool)
        ensures
            expected == bit(self@, 5),
    {
        test_bit(self.0, 5)
    }

    /// The card's state: bits 9 to 12, of which the values 9 to 15 have no
    /// meaning and read as `Reserved`.
    pub fn state(&self) -> (state: CardState)
        ensures
            state == state_of(state_field(self@)),
            state_field(self@) <= 15,
    {
        let field: u32 = (self.0 >> 9) & 0xf;
        proof {
            let raw = self.0;
            assert((raw >> 9) & 0xf <= 15) by (bit_vector);
        }
        match field {
            0 => CardState::Idle,
            1 => CardState::Ready,
            2 => CardState::Ident,
            3 => CardState::Standby,
            4 => CardState::Transmit,
            5 => CardState::Data,
            6 => CardState::Receive,
            7 => CardState::Program,
            8 => CardState::Disabled,
            _ => CardState::Reserved,
        }
    }
}

} // verus!
