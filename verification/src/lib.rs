//! Protocol core of an SD card host.
//!
//! The crate holds everything about driving an SD, SDHC or SDXC card that can
//! be decided without touching hardware: the decoders of the card's registers,
//! the classification of the controller's status flags, and the session state
//! machine that sequences card bring-up, block reads and writes, erases and
//! completion polling.
//!
//! The session never performs a register access itself. Every call hands back
//! a [`Step`]: the register-level [`Action`]s to perform, in order, followed by
//! either the result of the call or a request to read the controller's
//! registers and pass them to [`Device::advance`]. The code that owns the
//! peripheral runs that loop.
pub mod block;
pub mod card_status;
pub mod command;
pub mod config;
pub mod csd;
pub mod device;
pub mod dma;
pub mod error;
pub mod laws;
pub mod sd_status;
pub mod session;
pub mod step;
pub mod transport;

pub use block::{Block, BlockCount, BlockIndex, BLOCK_SIZE};
pub use card_status::{CardState, CardStatus};
pub use command::{AppCommand, Command, ResponseKind};
pub use csd::{CardVersion, CID, CSD};
pub use config::{Clock, Config};
pub use device::Device;
pub use dma::{Direction, Transfer};
pub use error::Error;
pub use sd_status::{BusWidth, SDStatus};
pub use session::{Outcome, Session};
pub use step::{Action, Exchange, Next, State, Step};
pub use transport::{Flags, Progress, Readout};
