use vstd::prelude::*;
use crate::block::BlockIndex;
use crate::command::ResponseKind;
use crate::config::Clock;
use crate::dma::{Direction, Transfer};
use crate::error::Error;
use crate::sd_status::BusWidth;

verus! {

/// Where the session stands.
#[derive(Copy, Clone, Debug, PartialEq, Eq)]
pub enum State {
    /// No card has been brought up.
    Uninitialized,
    /// The card's version is known, `true` for version 2, and the card is
    /// being asked for its operating conditions until it has powered up.
    Init1(bool),
    /// The card is selected and no operation is outstanding.
    Ready,
    /// A transfer from the card is outstanding.
    Reading,
    /// A transfer to the card is outstanding.
    Writing,
    /// An erase is outstanding.
    Erasing,
}

/// One thing to do to the controller or to the DMA channel.
#[derive(Copy, Clone, Debug, PartialEq, Eq)]
pub enum Action {
    /// Power the controller, clock the card at the controller's clock divided
    /// by `clock_divider` plus two, load the data timeout and route the DMA
    /// channel to the controller.
    PowerOn { clock_divider: u8, data_timeout: u32 },
    /// Return the controller to its state after a reset of the chip.
    PowerOff,
    /// Set the bus width and the clock for data transfers.
    Configure { bus_width: BusWidth, clock: Clock },
    /// Write the argument, then the command register with this index and
    /// response length, which starts the command.
    Command { index: u8, argument: u32, response: ResponseKind },
    /// Acknowledge the status flags in `mask`.
    ClearFlags { mask: u32 },
    /// Busy-wait for `cycles` iterations.
    Settle { cycles: u32 },
    /// Point the DMA channel at the buffer of the operation, set it up as
    /// given and enable it.
    StartDma(Transfer),
    /// Disable the DMA channel.
    StopDma,
    /// Load the data length in bytes and enable the data path in the given
    /// direction, with DMA, for blocks of two to the power `block_size_log2`
    /// bytes.
    StartData { direction: Direction, length: u32, block_size_log2: u8 },
}

/// The command that has been issued and not yet been seen to end, named by
/// what it is for, with what is needed to go on after it.
#[derive(Copy, Clone, Debug, PartialEq, Eq)]
pub enum Exchange {
    /// No command is in flight.
    Idle,
    /// `GO_IDLE_STATE`, which opens a bring-up.
    GoIdle,
    /// `SEND_IF_COND`, which tells the card's version.
    InterfaceCondition,
    /// The `APP_COMMAND` before `SD_SEND_OP_COND`.
    AppOperatingConditions { v2: bool },
    /// `SD_SEND_OP_COND`.
    OperatingConditions { v2: bool },
    /// `ALL_SEND_CID`.
    AllSendCid,
    /// The settling delay after `ALL_SEND_CID`.
    CidSettle,
    /// `SEND_RELATIVE_ADDR`.
    RelativeAddress,
    /// `SEND_CSD`.
    SendCsd,
    /// The settling delay after `SEND_CSD`.
    CsdSettle,
    /// `SELECT_CARD`.
    SelectCard,
    /// The `APP_COMMAND` before `SET_BUS_WIDTH`.
    AppBusWidth,
    /// `SET_BUS_WIDTH`.
    SetBusWidth,
    /// `READ_BLOCK`.
    ReadBlock,
    /// `SET_BLOCK_COUNT` before a write of several blocks to `address`,
    /// `length` bytes in all, moved by `transfer`.
    BlockCount { address: BlockIndex, transfer: Transfer, length: u32 },
    /// `WRITE_BLOCK`, or `WRITE_MULTIPLE_BLOCK` if `multiple`, for `length`
    /// bytes.
    WriteBlocks { multiple: bool, length: u32 },
    /// `ERASE_WR_BLK_START` of an erase that ends at block `end`.
    EraseStart { end: BlockIndex },
    /// `ERASE_WR_BLK_END`.
    EraseEnd,
    /// `ERASE`.
    EraseConfirm,
    /// The `APP_COMMAND` before `SD_STATUS`.
    AppSdStatus,
    /// `SD_STATUS`.
    SdStatus,
    /// No command: the flags of the data path are awaited, to tell whether
    /// the transfer in `direction` has ended.
    DataEnd { direction: Direction },
    /// `SEND_STATUS`, which tells whether an erase has ended.
    CardStatus,
}

/// How a call goes on once its actions have been performed.
#[derive(Debug, PartialEq, Eq)]
pub enum Next {
    /// Read the controller's flags and response registers and hand them to
    /// [`Device::advance`].
    Await,
    /// The call is over and what it waits for has not happened yet: make the
    /// same call again later.
    Pending,
    /// The call is over with this result.
    Done(Result<(), Error>),
}

/// What a call to the session hands back: the actions to perform, in order,
/// and how to go on after them.
#[derive(Debug, PartialEq, Eq)]
pub struct Step {
    pub actions: Vec<Action>,
    pub next: Next,
}

} // verus!
