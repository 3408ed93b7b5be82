use vstd::prelude::*;
use crate::sd_status::BusWidth;

verus! {

/// What the session needs to know of its environment.
#[derive(Copy, Clone, Debug, PartialEq, Eq)]
pub struct Config {
    /// The width of the data bus, one bit or four.
    pub bus_width: BusWidth,
    /// The value to divide the clock by. Zero or one bypasses the divider.
    pub clock_divider: u8,
    /// The number of clock cycles to wait for a data transfer to complete.
    pub data_timeout: u32,
}

/// The setting of the controller's clock for data transfers.
#[derive(Copy, Clone, Debug, PartialEq, Eq)]
pub enum Clock {
    /// The card is clocked at the controller's own clock.
    Bypass,
    /// The value of the divider field: the controller's clock is divided by
    /// the field plus two.
    Divide(u8),
}

impl Default for Config {
    fn default() -> (config: Self)
        ensures
            config == (Config {
                bus_width: BusWidth::Bits1,
                clock_divider: 4,
                data_timeout: 0x100_0000,
            }),
    {
        Config { bus_width: BusWidth::Bits1, clock_divider: 4, data_timeout: 0x100_0000 }
    }
}

impl Config {
    /// The clock setting that divides by `clock_divider`.
    pub open spec fn clock_setting(self) -> Clock {
        if self.clock_divider < 2 {
            Clock::Bypass
        } else {
            Clock::Divide((self.clock_divider - 2) as u8)
        }
    }

    /// The argument of `SET_BUS_WIDTH` that selects `bus_width`.
    pub open spec fn width_code(self) -> u32 {
        match self.bus_width {
            BusWidth::Bits1 => 0,
            BusWidth::Bits4 => 2,
        }
    }

    /// The clock setting that divides by `clock_divider`.
    pub fn clock(&self) -> (clock: Clock)
        ensures
            clock == self.clock_setting(),
    {
        if self.clock_divider < 2 {
            Clock::Bypass
        } else {
            Clock::Divide(self.clock_divider - 2)
        }
    }

    /// The argument of `SET_BUS_WIDTH` that selects `bus_width`.
    pub fn bus_width_argument(&self) -> (argument: u32)
        ensures
            argument == self.width_code(),
    {
        match self.bus_width {
            BusWidth::Bits1 => 0,
            BusWidth::Bits4 => 2,
        }
    }
}

} // verus!
