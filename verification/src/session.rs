//! The session as a transition system over plain values.
//!
//! Every call of a [`Device`](crate::device::Device) is described here as a
//! function from the session before the call to the session after it and the
//! step handed back. The device's contracts say that it computes these
//! functions; the laws are proved about them.
use vstd::prelude::*;
use crate::block::{BlockCount, BlockIndex, BLOCK_SIZE};
use crate::card_status::bit;
use crate::command::{AppCommand, Command, ResponseKind};
use crate::config::Config;
use crate::csd::{CardVersion, CID, CSD};
use crate::dma::{valid_length, Direction, Transfer};
use crate::error::Error;
use crate::step::{Action, Exchange, Next, State};
use crate::transport::{
    app_outcome, command_outcome, data_outcome, op_cond_outcome, short_outcome, Progress, Readout,
    STATUS_ERROR_MASK,
};

verus! {

/// The check pattern sent with the interface condition, which a version 2
/// card echoes.
pub const SEND_IF_COND_PATTERN: u32 = 0x0000_01aa;

/// The clock divider in force while the card is identified.
pub const INIT_CLOCK_DIVIDER: u8 = 0x7e;

/// The length of the busy-wait between the end of a command with a long
/// response and the reading of its response words.
pub const SETTLE_CYCLES: u32 = 0x1000;

/// The part of the answer to `SEND_RELATIVE_ADDR` that holds the address.
pub const RCA_MASK: u32 = 0xffff_0000;

/// The length of the SD status register in bytes.
pub const SD_STATUS_SIZE: u32 = 64;

/// The session as a value: the model of a [`Device`](crate::device::Device).
pub struct Session {
    pub config: Config,
    pub state: State,
    /// The relative card address, in the upper half of the word, as it stands
    /// in command arguments.
    pub rca: u32,
    pub cid: CID,
    pub csd: CSD,
    pub card_version: CardVersion,
    pub exchange: Exchange,
}

/// The effect of a call on the model: the session after it and the step it
/// hands back.
pub struct Outcome {
    pub session: Session,
    pub actions: Seq<Action>,
    pub next: Next,
}

/// The action that issues `cmd`.
pub open spec fn command(cmd: Command, argument: u32, response: ResponseKind) -> Action {
    Action::Command { index: cmd.index(), argument, response }
}

/// The action that issues the application command `cmd`, which has a short
/// response.
pub open spec fn app_command(cmd: AppCommand, argument: u32) -> Action {
    Action::Command { index: cmd.index(), argument, response: ResponseKind::Short }
}

/// The action that acknowledges the flags of a finished command or transfer.
pub open spec fn clear_flags() -> Action {
    Action::ClearFlags { mask: STATUS_ERROR_MASK }
}

/// The action that waits before the words of a long response are read.
pub open spec fn settle() -> Action {
    Action::Settle { cycles: SETTLE_CYCLES }
}

/// The action that applies the bus width and clock of `config`.
pub open spec fn configure(config: Config) -> Action {
    Action::Configure { bus_width: config.bus_width, clock: config.clock_setting() }
}

/// The action that arms the data path for `length` bytes in blocks of two to
/// the power `block_size_log2`.
pub open spec fn start_data(direction: Direction, length: u32, block_size_log2: u8) -> Action {
    Action::StartData { direction, length, block_size_log2 }
}

/// The action that arms the DMA channel for `length` bytes.
pub open spec fn start_dma(direction: Direction, length: u32) -> Action {
    Action::StartDma(Transfer { direction, words: length / 4 })
}

/// The argument of `SD_SEND_OP_COND`: the voltage window, and bit 30 if the
/// host offers high capacity.
pub open spec fn op_cond_argument(hcs: bool) -> u32 {
    if hcs {
        0x4010_0000
    } else {
        0x0010_0000
    }
}

/// What the answer to `SEND_IF_COND` says of the card: `true` for a version 2
/// card, which echoes the pattern, `false` for a version 1 card, which does
/// not answer. A wrong echo means that the card cannot work at this voltage.
pub open spec fn interface_condition(answer: Result<u32, Error>) -> Result<bool, Error> {
    match answer {
        Err(Error::Timeout) => Ok(false),
        Err(e) => Err(e),
        Ok(pattern) => if pattern == SEND_IF_COND_PATTERN {
            Ok(true)
        } else {
            Err(Error::OperatingConditionsNotSupported)
        },
    }
}

/// The error with which a bring-up ends when the operating-conditions
/// exchange fails with `error`: a version 1 card that stays silent is no card
/// at all.
pub open spec fn negotiation_error(v2: bool, error: Error) -> Error {
    if !v2 && error == Error::Timeout {
        Error::NoCard
    } else {
        error
    }
}

/// The version of a card by the answer to the interface condition and the
/// capacity bit of its operating conditions.
pub open spec fn version_of(v2: bool, ccs: bool) -> CardVersion {
    if !v2 {
        CardVersion::V1SC
    } else if ccs {
        CardVersion::V2HC
    } else {
        CardVersion::V2SC
    }
}

/// The capacity descriptor of a card of the given version, from the four
/// words of its register.
pub open spec fn descriptor(version: CardVersion, words: [u32; 4]) -> CSD {
    match version {
        CardVersion::V1SC => CSD::V1(words),
        CardVersion::V2SC => CSD::V1(words),
        CardVersion::V2HC => CSD::V2(words),
    }
}

/// The address of the last of `blocks` blocks. A count of zero stands for the
/// 2^32 blocks that do not fit the count; their last address is the largest.
pub open spec fn last_block(blocks: BlockCount) -> BlockIndex {
    if blocks == 0 {
        0xffff_ffff
    } else {
        (blocks - 1) as u32
    }
}

impl Session {
    /// Whether the card has been brought up, so that its address, identity
    /// and capacity are known.
    pub open spec fn initialized(self) -> bool {
        self.state is Ready || self.state is Reading || self.state is Writing
            || self.state is Erasing
    }

    /// Whether the command in flight, if any, belongs to the state.
    pub open spec fn wf(self) -> bool {
        match self.exchange {
            Exchange::Idle => true,
            Exchange::GoIdle | Exchange::InterfaceCondition => self.state is Uninitialized,
            Exchange::AppOperatingConditions { v2 } | Exchange::OperatingConditions { v2 } => self.state
                == State::Init1(v2),
            Exchange::AllSendCid
            | Exchange::CidSettle
            | Exchange::RelativeAddress
            | Exchange::SendCsd
            | Exchange::CsdSettle
            | Exchange::SelectCard
            | Exchange::AppBusWidth
            | Exchange::SetBusWidth => self.state is Init1,
            Exchange::ReadBlock
            | Exchange::EraseStart { .. }
            | Exchange::EraseEnd
            | Exchange::EraseConfirm
            | Exchange::AppSdStatus
            | Exchange::SdStatus => self.state is Ready,
            Exchange::BlockCount { transfer, length, .. } => {
                &&& self.state is Ready
                &&& valid_length(length as int)
                &&& transfer == Transfer { direction: Direction::Send, words: length / 4 }
            },
            Exchange::WriteBlocks { length, .. } => {
                &&& self.state is Ready
                &&& valid_length(length as int)
            },
            Exchange::DataEnd { direction } => match direction {
                Direction::Receive => self.state is Reading,
                Direction::Send => self.state is Writing,
            },
            Exchange::CardStatus => self.state is Erasing,
        }
    }

    /// Whether an operation can be started: not before the card is brought
    /// up, and not while another operation or a command is outstanding.
    pub open spec fn readiness(self) -> Result<(), Error> {
        match self.state {
            State::Uninitialized | State::Init1(_) => Err(Error::Uninitialized),
            State::Ready => if self.exchange is Idle {
                Ok(())
            } else {
                Err(Error::Busy)
            },
            State::Reading | State::Writing | State::Erasing => Err(Error::Busy),
        }
    }

    /// The call is refused: nothing changes and nothing is to be done.
    pub open spec fn refuse(self, error: Error) -> Outcome {
        Outcome { session: self, actions: Seq::empty(), next: Next::Done(Err(error)) }
    }

    /// The command in flight is still active: nothing changes, and the
    /// controller is to be read again.
    pub open spec fn wait(self) -> Outcome {
        Outcome { session: self, actions: Seq::empty(), next: Next::Await }
    }

    /// The actions end in a command, which is then in flight as `exchange`.
    pub open spec fn issue(self, exchange: Exchange, actions: Seq<Action>) -> Outcome {
        Outcome { session: Session { exchange, ..self }, actions, next: Next::Await }
    }

    /// The call ends in `state` with nothing in flight.
    pub open spec fn settle(self, state: State, actions: Seq<Action>, next: Next) -> Outcome {
        Outcome { session: Session { state, exchange: Exchange::Idle, ..self }, actions, next }
    }

    /// A command of the bring-up has failed: the session is back at the start.
    pub open spec fn fail_init(self, error: Error) -> Outcome {
        self.settle(State::Uninitialized, seq![clear_flags()], Next::Done(Err(error)))
    }

    /// A command of an operation has failed: the state stays as it was.
    pub open spec fn abort(self, error: Error) -> Outcome {
        self.settle(self.state, seq![clear_flags()], Next::Done(Err(error)))
    }

    /// The session of a fresh device.
    pub open spec fn fresh(self, config: Config) -> bool {
        &&& self.config == config
        &&& self.state is Uninitialized
        &&& self.exchange is Idle
        &&& self.rca == 0
        &&& self.card_version is V1SC
        &&& self.csd is V1
        &&& forall|i: int| 0 <= i < 4 ==> self.cid[i] == 0 && self.csd.words()[i] == 0
    }

    /// `init_card`: continues a bring-up that waits for the card to power up,
    /// and otherwise begins one from the start, whatever the state was.
    pub open spec fn init_card(self) -> Outcome {
        if !(self.exchange is Idle) {
            self.refuse(Error::Busy)
        } else {
            match self.state {
                State::Init1(v2) => self.issue(
                    Exchange::AppOperatingConditions { v2 },
                    seq![command(Command::APP_COMMAND, 0, ResponseKind::Short)],
                ),
                _ => Session { state: State::Uninitialized, ..self }.issue(
                    Exchange::GoIdle,
                    seq![
                        Action::PowerOn {
                            clock_divider: INIT_CLOCK_DIVIDER,
                            data_timeout: self.config.data_timeout,
                        },
                        command(Command::GO_IDLE_STATE, 0, ResponseKind::Silent),
                    ],
                ),
            }
        }
    }

    /// `card_id`: the card's identification, once the card is brought up.
    pub open spec fn card_id(self) -> Result<CID, Error> {
        if self.initialized() {
            Ok(self.cid)
        } else {
            Err(Error::Uninitialized)
        }
    }

    /// `card_size`: the card's capacity in blocks, once the card is brought
    /// up.
    pub open spec fn card_size(self) -> Result<BlockCount, Error> {
        if self.initialized() {
            Ok(self.csd.blocks())
        } else {
            Err(Error::Uninitialized)
        }
    }

    /// `read_block`: arms the DMA channel and the data path for one block
    /// from the card, then issues the read.
    pub open spec fn read_block(self, address: BlockIndex) -> Outcome {
        match self.readiness() {
            Err(e) => self.refuse(e),
            Ok(_) => self.issue(
                Exchange::ReadBlock,
                seq![
                    configure(self.config),
                    start_dma(Direction::Receive, BLOCK_SIZE as u32),
                    start_data(Direction::Receive, BLOCK_SIZE as u32, 9),
                    command(Command::READ_BLOCK, address, ResponseKind::Short),
                ],
            ),
        }
    }

    /// `write_blocks`: for one block, arms the DMA channel and issues the
    /// write; for several, announces their number first.
    pub open spec fn write_blocks(self, count: BlockCount, address: BlockIndex) -> Outcome {
        let length = (count * BLOCK_SIZE) as u32;
        match self.readiness() {
            Err(e) => self.refuse(e),
            Ok(_) => if count == 1 {
                self.issue(
                    Exchange::WriteBlocks { multiple: false, length },
                    seq![
                        configure(self.config),
                        start_dma(Direction::Send, length),
                        command(Command::WRITE_BLOCK, address, ResponseKind::Short),
                    ],
                )
            } else {
                self.issue(
                    Exchange::BlockCount {
                        address,
                        transfer: Transfer { direction: Direction::Send, words: length / 4 },
                        length,
                    },
                    seq![
                        configure(self.config),
                        command(Command::SET_BLOCK_COUNT, count, ResponseKind::Short),
                    ],
                )
            },
        }
    }

    /// `erase`: issues the first of the three commands that erase the blocks
    /// from `start` to `end`.
    pub open spec fn erase(self, start: BlockIndex, end: BlockIndex) -> Outcome {
        match self.readiness() {
            Err(e) => self.refuse(e),
            Ok(_) => self.issue(
                Exchange::EraseStart { end },
                seq![
                    configure(self.config),
                    command(Command::ERASE_WR_BLK_START, start, ResponseKind::Short),
                ],
            ),
        }
    }

    /// `erase_card`: erases from the first block to the last that the
    /// capacity descriptor tells of.
    pub open spec fn erase_card(self) -> Outcome {
        self.erase(0, last_block(self.csd.blocks()))
    }

    /// `read_sd_status`: issues the first of the two commands that make the
    /// card send its SD status register.
    pub open spec fn read_sd_status(self) -> Outcome {
        match self.readiness() {
            Err(e) => self.refuse(e),
            Ok(_) => self.issue(
                Exchange::AppSdStatus,
                seq![
                    configure(self.config),
                    command(Command::APP_COMMAND, self.rca, ResponseKind::Short),
                ],
            ),
        }
    }

    /// `result`: asks for what tells whether the outstanding operation has
    /// ended: the controller's flags for a transfer, the card's status for an
    /// erase.
    pub open spec fn result(self) -> Outcome {
        match self.state {
            State::Uninitialized | State::Init1(_) => self.refuse(Error::Uninitialized),
            _ => if !(self.exchange is Idle) {
                self.refuse(Error::Busy)
            } else {
                match self.state {
                    State::Reading => self.issue(
                        Exchange::DataEnd { direction: Direction::Receive },
                        Seq::empty(),
                    ),
                    State::Writing => self.issue(
                        Exchange::DataEnd { direction: Direction::Send },
                        Seq::empty(),
                    ),
                    State::Erasing => self.issue(
                        Exchange::CardStatus,
                        seq![command(Command::SEND_STATUS, self.rca, ResponseKind::Short)],
                    ),
                    _ => self.refuse(Error::NoOperation),
                }
            },
        }
    }

    /// `reset`: powers the controller off and forgets the card.
    pub open spec fn reset(self) -> Outcome {
        self.settle(State::Uninitialized, seq![Action::PowerOff], Next::Done(Ok(())))
    }

    /// After `GO_IDLE_STATE`: asks the card for its interface condition.
    pub open spec fn after_go_idle(self, readout: Readout) -> Outcome {
        match command_outcome(readout.flags, false) {
            Progress::Pending => self.wait(),
            Progress::Done(Err(e)) => self.fail_init(e),
            Progress::Done(Ok(_)) => self.issue(
                Exchange::InterfaceCondition,
                seq![
                    clear_flags(),
                    command(Command::SEND_IF_COND, SEND_IF_COND_PATTERN, ResponseKind::Short),
                ],
            ),
        }
    }

    /// After `SEND_IF_COND`: the card's version is known, and the card is
    /// asked for its operating conditions for the first time.
    pub open spec fn after_interface_condition(self, readout: Readout) -> Outcome {
        match short_outcome(Command::SEND_IF_COND.index(), readout) {
            Progress::Pending => self.wait(),
            Progress::Done(answer) => match interface_condition(answer) {
                Err(e) => self.fail_init(e),
                Ok(v2) => Session { state: State::Init1(v2), ..self }.issue(
                    Exchange::AppOperatingConditions { v2 },
                    seq![clear_flags(), command(Command::APP_COMMAND, 0, ResponseKind::Short)],
                ),
            },
        }
    }

    /// After the `APP_COMMAND` of the negotiation: sends the operating
    /// conditions, offering high capacity to a version 2 card.
    pub open spec fn after_app_operating_conditions(self, v2: bool, readout: Readout) -> Outcome {
        match short_outcome(Command::APP_COMMAND.index(), readout) {
            Progress::Pending => self.wait(),
            Progress::Done(Err(e)) => self.fail_init(negotiation_error(v2, e)),
            Progress::Done(Ok(_)) => self.issue(
                Exchange::OperatingConditions { v2 },
                seq![
                    clear_flags(),
                    app_command(AppCommand::SD_SEND_OP_COND, op_cond_argument(v2)),
                ],
            ),
        }
    }

    /// After `SD_SEND_OP_COND`: a card that has not powered up yet, which
    /// bit 31 of its answer tells, leaves the call pending in `Init1`; one
    /// that has is of the version that bit 30 tells and is asked for its
    /// identification.
    pub open spec fn after_operating_conditions(self, v2: bool, readout: Readout) -> Outcome {
        match op_cond_outcome(readout) {
            Progress::Pending => self.wait(),
            Progress::Done(Err(e)) => self.fail_init(negotiation_error(v2, e)),
            Progress::Done(Ok(ocr)) => if !bit(ocr, 31) {
                self.settle(State::Init1(v2), seq![clear_flags()], Next::Pending)
            } else {
                Session { card_version: version_of(v2, bit(ocr, 30)), ..self }.issue(
                    Exchange::AllSendCid,
                    seq![clear_flags(), command(Command::ALL_SEND_CID, 0, ResponseKind::Long)],
                )
            },
        }
    }

    /// After a command with a long response: waits for the response words to
    /// settle before they are read as `settled`.
    pub open spec fn after_long(self, settled: Exchange, readout: Readout) -> Outcome {
        match command_outcome(readout.flags, true) {
            Progress::Pending => self.wait(),
            Progress::Done(Err(e)) => self.fail_init(e),
            Progress::Done(Ok(_)) => self.issue(settled, seq![clear_flags(), settle()]),
        }
    }

    /// After the delay that follows `ALL_SEND_CID`: keeps the identification
    /// and asks the card for a relative address.
    pub open spec fn after_cid_settle(self, readout: Readout) -> Outcome {
        Session { cid: readout.words, ..self }.issue(
            Exchange::RelativeAddress,
            seq![command(Command::SEND_RELATIVE_ADDR, 0, ResponseKind::Short)],
        )
    }

    /// After `SEND_RELATIVE_ADDR`: keeps the address, the upper half of the
    /// answer, and asks the card at that address for its capacity descriptor.
    pub open spec fn after_relative_address(self, readout: Readout) -> Outcome {
        match short_outcome(Command::SEND_RELATIVE_ADDR.index(), readout) {
            Progress::Pending => self.wait(),
            Progress::Done(Err(e)) => self.fail_init(e),
            Progress::Done(Ok(answer)) => Session { rca: answer & RCA_MASK, ..self }.issue(
                Exchange::SendCsd,
                seq![
                    clear_flags(),
                    command(Command::SEND_CSD, answer & RCA_MASK, ResponseKind::Long),
                ],
            ),
        }
    }

    /// After the delay that follows `SEND_CSD`: keeps the capacity descriptor
    /// in the layout of the card's version and selects the card.
    pub open spec fn after_csd_settle(self, readout: Readout) -> Outcome {
        Session { csd: descriptor(self.card_version, readout.words), ..self }.issue(
            Exchange::SelectCard,
            seq![command(Command::SELECT_CARD, self.rca, ResponseKind::Short)],
        )
    }

    /// After `SELECT_CARD`: announces the application command that sets the
    /// bus width.
    pub open spec fn after_select_card(self, readout: Readout) -> Outcome {
        match short_outcome(Command::SELECT_CARD.index(), readout) {
            Progress::Pending => self.wait(),
            Progress::Done(Err(e)) => self.fail_init(e),
            Progress::Done(Ok(_)) => self.issue(
                Exchange::AppBusWidth,
                seq![clear_flags(), command(Command::APP_COMMAND, self.rca, ResponseKind::Short)],
            ),
        }
    }

    /// After the `APP_COMMAND` that announces it: sets the card's bus width.
    pub open spec fn after_app_bus_width(self, readout: Readout) -> Outcome {
        match short_outcome(Command::APP_COMMAND.index(), readout) {
            Progress::Pending => self.wait(),
            Progress::Done(Err(e)) => self.fail_init(e),
            Progress::Done(Ok(_)) => self.issue(
                Exchange::SetBusWidth,
                seq![
                    clear_flags(),
                    app_command(AppCommand::SET_BUS_WIDTH, self.config.width_code()),
                ],
            ),
        }
    }

    /// After `SET_BUS_WIDTH`: the controller takes the same width and the
    /// clock for data transfers, and the session is `Ready`.
    pub open spec fn after_set_bus_width(self, readout: Readout) -> Outcome {
        match app_outcome(readout) {
            Progress::Pending => self.wait(),
            Progress::Done(Err(e)) => self.fail_init(e),
            Progress::Done(Ok(_)) => self.settle(
                State::Ready,
                seq![clear_flags(), configure(self.config)],
                Next::Done(Ok(())),
            ),
        }
    }

    /// After the last command that starts an operation: the operation is
    /// outstanding, as `state` tells.
    pub open spec fn after_start(self, outcome: Progress<u32>, state: State) -> Outcome {
        match outcome {
            Progress::Pending => self.wait(),
            Progress::Done(Err(e)) => self.abort(e),
            Progress::Done(Ok(_)) => self.settle(state, seq![clear_flags()], Next::Done(Ok(()))),
        }
    }

    /// After `SET_BLOCK_COUNT`: arms the DMA channel and issues the write of
    /// several blocks.
    pub open spec fn after_block_count(
        self,
        address: BlockIndex,
        transfer: Transfer,
        length: u32,
        readout: Readout,
    ) -> Outcome {
        match short_outcome(Command::SET_BLOCK_COUNT.index(), readout) {
            Progress::Pending => self.wait(),
            Progress::Done(Err(e)) => self.abort(e),
            Progress::Done(Ok(_)) => self.issue(
                Exchange::WriteBlocks { multiple: true, length },
                seq![
                    clear_flags(),
                    Action::StartDma(transfer),
                    command(Command::WRITE_MULTIPLE_BLOCK, address, ResponseKind::Short),
                ],
            ),
        }
    }

    /// The command that writes one block or several.
    pub open spec fn write_command(multiple: bool) -> Command {
        if multiple {
            Command::WRITE_MULTIPLE_BLOCK
        } else {
            Command::WRITE_BLOCK
        }
    }

    /// After the write command: arms the data path, which for a write comes
    /// after the command, and the write is outstanding.
    pub open spec fn after_write_blocks(self, multiple: bool, length: u32, readout: Readout)
        -> Outcome {
        match short_outcome(Self::write_command(multiple).index(), readout) {
            Progress::Pending => self.wait(),
            Progress::Done(Err(e)) => self.abort(e),
            Progress::Done(Ok(_)) => self.settle(
                State::Writing,
                seq![clear_flags(), start_data(Direction::Send, length, 9)],
                Next::Done(Ok(())),
            ),
        }
    }

    /// After `ERASE_WR_BLK_START`: sets the end of the range.
    pub open spec fn after_erase_start(self, end: BlockIndex, readout: Readout) -> Outcome {
        match short_outcome(Command::ERASE_WR_BLK_START.index(), readout) {
            Progress::Pending => self.wait(),
            Progress::Done(Err(e)) => self.abort(e),
            Progress::Done(Ok(_)) => self.issue(
                Exchange::EraseEnd,
                seq![clear_flags(), command(Command::ERASE_WR_BLK_END, end, ResponseKind::Short)],
            ),
        }
    }

    /// After `ERASE_WR_BLK_END`: confirms the erase.
    pub open spec fn after_erase_end(self, readout: Readout) -> Outcome {
        match short_outcome(Command::ERASE_WR_BLK_END.index(), readout) {
            Progress::Pending => self.wait(),
            Progress::Done(Err(e)) => self.abort(e),
            Progress::Done(Ok(_)) => self.issue(
                Exchange::EraseConfirm,
                seq![clear_flags(), command(Command::ERASE, 0, ResponseKind::Short)],
            ),
        }
    }

    /// After the `APP_COMMAND` that announces it: arms the DMA channel and
    /// the data path for the 64 bytes of the SD status register and asks the
    /// card for them.
    pub open spec fn after_app_sd_status(self, readout: Readout) -> Outcome {
        match short_outcome(Command::APP_COMMAND.index(), readout) {
            Progress::Pending => self.wait(),
            Progress::Done(Err(e)) => self.abort(e),
            Progress::Done(Ok(_)) => self.issue(
                Exchange::SdStatus,
                seq![
                    clear_flags(),
                    start_dma(Direction::Receive, SD_STATUS_SIZE),
                    start_data(Direction::Receive, SD_STATUS_SIZE, 6),
                    app_command(AppCommand::SD_STATUS, 0),
                ],
            ),
        }
    }

    /// Whether the flags show the transfer in `direction` as still active.
    pub open spec fn transfer_active(direction: Direction, readout: Readout) -> bool {
        match direction {
            Direction::Receive => readout.flags.receive_active,
            Direction::Send => readout.flags.transmit_active,
        }
    }

    /// With the flags of the data path: a transfer that is still active
    /// leaves the call pending; one that has ended is cleared away, the
    /// session is `Ready`, and the flags tell how it ended.
    pub open spec fn after_data_end(self, direction: Direction, readout: Readout) -> Outcome {
        if Self::transfer_active(direction, readout) {
            self.settle(self.state, Seq::empty(), Next::Pending)
        } else {
            self.settle(
                State::Ready,
                seq![Action::StopDma, clear_flags()],
                Next::Done(data_outcome(readout.flags)),
            )
        }
    }

    /// After `SEND_STATUS`: the erase has ended once the card is ready for
    /// data, which bit 8 of its status tells; until then the call is pending.
    pub open spec fn after_card_status(self, readout: Readout) -> Outcome {
        match short_outcome(Command::SEND_STATUS.index(), readout) {
            Progress::Pending => self.wait(),
            Progress::Done(Err(e)) => self.abort(e),
            Progress::Done(Ok(status)) => if bit(status, 8) {
                self.settle(State::Ready, seq![clear_flags()], Next::Done(Ok(())))
            } else {
                self.settle(self.state, seq![clear_flags()], Next::Pending)
            },
        }
    }

    /// `advance`: goes on after the command in flight, by what the
    /// controller shows.
    pub open spec fn advance(self, readout: Readout) -> Outcome {
        match self.exchange {
            Exchange::Idle => self.refuse(Error::NoOperation),
            Exchange::GoIdle => self.after_go_idle(readout),
            Exchange::InterfaceCondition => self.after_interface_condition(readout),
            Exchange::AppOperatingConditions { v2 } => self.after_app_operating_conditions(
                v2,
                readout,
            ),
            Exchange::OperatingConditions { v2 } => self.after_operating_conditions(v2, readout),
            Exchange::AllSendCid => self.after_long(Exchange::CidSettle, readout),
            Exchange::CidSettle => self.after_cid_settle(readout),
            Exchange::RelativeAddress => self.after_relative_address(readout),
            Exchange::SendCsd => self.after_long(Exchange::CsdSettle, readout),
            Exchange::CsdSettle => self.after_csd_settle(readout),
            Exchange::SelectCard => self.after_select_card(readout),
            Exchange::AppBusWidth => self.after_app_bus_width(readout),
            Exchange::SetBusWidth => self.after_set_bus_width(readout),
            Exchange::ReadBlock => self.after_start(
                short_outcome(Command::READ_BLOCK.index(), readout),
                State::Reading,
            ),
            Exchange::BlockCount { address, transfer, length } => self.after_block_count(
                address,
                transfer,
                length,
                readout,
            ),
            Exchange::WriteBlocks { multiple, length } => self.after_write_blocks(
                multiple,
                length,
                readout,
            ),
            Exchange::EraseStart { end } => self.after_erase_start(end, readout),
            Exchange::EraseEnd => self.after_erase_end(readout),
            Exchange::EraseConfirm => self.after_start(
                short_outcome(Command::ERASE.index(), readout),
                State::Erasing,
            ),
            Exchange::AppSdStatus => self.after_app_sd_status(readout),
            Exchange::SdStatus => self.after_start(app_outcome(readout), State::Reading),
            Exchange::DataEnd { direction } => self.after_data_end(direction, readout),
            Exchange::CardStatus => self.after_card_status(readout),
        }
    }
}

} // verus!
