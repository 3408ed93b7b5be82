//! The session with a card, as the code that owns the controller drives it.
use vstd::prelude::*;
use vstd::arithmetic::power2::lemma2_to64;
use crate::block::{BlockCount, BlockIndex, BLOCK_SIZE};
use crate::card_status::{test_bit, CardStatus};
use crate::command::{AppCommand, Command, ResponseKind};
use crate::config::Config;
use crate::csd::{CardVersion, CID, CSD};
use crate::dma::{valid_length, Direction, Transfer};
use crate::error::Error;
use crate::session::{
    app_command, clear_flags, command, configure, interface_condition, negotiation_error,
    start_dma, version_of, Outcome, Session, INIT_CLOCK_DIVIDER, RCA_MASK, SD_STATUS_SIZE,
    SEND_IF_COND_PATTERN, SETTLE_CYCLES,
};
use crate::step::{Action, Exchange, Next, State, Step};
use crate::transport::{
    acmd41, app_command_short, card_command_long, card_command_none, card_command_short,
    check_data, Progress, Readout, STATUS_ERROR_MASK,
};

verus! {

/// One session with a card. It owns no hardware: it says what is to be done
/// to the controller and takes what the controller showed.
pub struct Device {
    config: Config,
    state: State,
    rca: u32,
    cid: CID,
    csd: CSD,
    card_version: CardVersion,
    exchange: Exchange,
}

impl View for Device {
    type V = Session;

    closed spec fn view(&self) -> Session {
        Session {
            config: self.config,
            state: self.state,
            rca: self.rca,
            cid: self.cid,
            csd: self.csd,
            card_version: self.card_version,
            exchange: self.exchange,
        }
    }
}

impl Outcome {
    /// Whether a call that left the session as `after` and handed back `step`
    /// did what this outcome says.
    pub open spec fn describes(self, after: Session, step: Step) -> bool {
        &&& after == self.session
        &&& step.actions@ =~= self.actions
        &&& step.next == self.next
    }
}

/// Decides what the answer to `SEND_IF_COND` says of the card's version.
pub fn check_operating_conditions(answer: Result<u32, Error>) -> (v2: Result<bool, Error>)
    ensures
        v2 == interface_condition(answer),
{
    match answer {
        Err(Error::Timeout) => Ok(false),
        Err(e) => Err(e),
        Ok(pattern) => {
            if pattern == SEND_IF_COND_PATTERN {
                Ok(true)
            } else {
                Err(Error::OperatingConditionsNotSupported)
            }
        },
    }
}

/// The version of a card by the answer to the interface condition and the
/// capacity bit of its operating conditions.
pub fn card_version(v2: bool, ccs: bool) -> (version: CardVersion)
    ensures
        version == version_of(v2, ccs),
{
    if !v2 {
        CardVersion::V1SC
    } else if ccs {
        CardVersion::V2HC
    } else {
        CardVersion::V2SC
    }
}

fn send(cmd: Command, argument: u32, response: ResponseKind) -> (action: Action)
    ensures
        action == command(cmd, argument, response),
{
    Action::Command { index: cmd.code(), argument, response }
}

fn send_app(cmd: AppCommand, argument: u32) -> (action: Action)
    ensures
        action == app_command(cmd, argument),
{
    Action::Command { index: cmd.code(), argument, response: ResponseKind::Short }
}

fn clear() -> (action: Action)
    ensures
        action == clear_flags(),
{
    Action::ClearFlags { mask: STATUS_ERROR_MASK }
}

fn arm_dma(direction: Direction, length: u32) -> (action: Action)
    requires
        valid_length(length as int),
    ensures
        action == start_dma(direction, length),
{
    Action::StartDma(Transfer::new(length, direction))
}

fn negotiation_failure(v2: bool, error: Error) -> (mapped: Error)
    ensures
        mapped == negotiation_error(v2, error),
{
    match error {
        Error::Timeout => {
            if v2 {
                Error::Timeout
            } else {
                Error::NoCard
            }
        },
        e => e,
    }
}

impl Device {
    /// A session with no card brought up, to work under `config`.
    pub fn new(config: Config) -> (device: Device)
        ensures
            device@.fresh(config),
            device@.wf(),
    {
        Device {
            config,
            state: State::Uninitialized,
            rca: 0,
            cid: [0u32, 0u32, 0u32, 0u32],
            csd: CSD::V1([0u32, 0u32, 0u32, 0u32]),
            card_version: CardVersion::V1SC,
            exchange: Exchange::Idle,
        }
    }

    /// Ends the session and gives back its configuration. No transfer may
    /// be outstanding.
    pub fn free(self) -> (config: Config)
        requires
            !(self@.state is Reading),
            !(self@.state is Writing),
        ensures
            config == self@.config,
    {
        self.config
    }

    /// Where the session stands.
    pub fn state(&self) -> (state: State)
        ensures
            state == self@.state,
    {
        self.state
    }

    /// The command in flight.
    pub fn exchange(&self) -> (exchange: Exchange)
        ensures
            exchange == self@.exchange,
    {
        self.exchange
    }

    /// The configuration the session works under.
    pub fn config(&self) -> (config: Config)
        ensures
            config == self@.config,
    {
        self.config
    }

    /// The card's version, once the card is brought up.
    pub fn card_version(&self) -> (version: Result<CardVersion, Error>)
        ensures
            version == if self@.initialized() {
                Ok::<CardVersion, Error>(self@.card_version)
            } else {
                Err::<CardVersion, Error>(Error::Uninitialized)
            },
    {
        match self.state {
            State::Uninitialized | State::Init1(_) => Err(Error::Uninitialized),
            _ => Ok(self.card_version),
        }
    }

    /// The card's relative address, once the card is brought up: the upper
    /// half of the word holds it, as in a command argument.
    pub fn relative_address(&self) -> (rca: Result<u32, Error>)
        ensures
            rca == if self@.initialized() {
                Ok::<u32, Error>(self@.rca)
            } else {
                Err::<u32, Error>(Error::Uninitialized)
            },
    {
        match self.state {
            State::Uninitialized | State::Init1(_) => Err(Error::Uninitialized),
            _ => Ok(self.rca),
        }
    }

    /// Whether an operation can be started: `Uninitialized` before the card
    /// is brought up, `Busy` while an operation or a command is outstanding.
    pub fn check_ready(&self) -> (ready: Result<(), Error>)
        ensures
            ready == self@.readiness(),
            ready is Ok <==> self@.state is Ready && self@.exchange is Idle,
    {
        match self.state {
            State::Uninitialized | State::Init1(_) => Err(Error::Uninitialized),
            State::Ready => match self.exchange {
                Exchange::Idle => Ok(()),
                _ => Err(Error::Busy),
            },
            State::Reading | State::Writing | State::Erasing => Err(Error::Busy),
        }
    }

    fn refuse(&self, error: Error) -> (step: Step)
        ensures
            self@.refuse(error).describes(self@, step),
    {
        Step { actions: Vec::new(), next: Next::Done(Err(error)) }
    }

    fn wait(&self) -> (step: Step)
        ensures
            self@.wait().describes(self@, step),
    {
        Step { actions: Vec::new(), next: Next::Await }
    }

    fn issue(&mut self, exchange: Exchange, actions: Vec<Action>) -> (step: Step)
        ensures
            old(self)@.issue(exchange, actions@).describes(final(self)@, step),
    {
        self.exchange = exchange;
        Step { actions, next: Next::Await }
    }

    fn settle(&mut self, state: State, actions: Vec<Action>, next: Next) -> (step: Step)
        ensures
            old(self)@.settle(state, actions@, next).describes(final(self)@, step),
    {
        self.state = state;
        self.exchange = Exchange::Idle;
        Step { actions, next }
    }

    fn fail_init(&mut self, error: Error) -> (step: Step)
        ensures
            old(self)@.fail_init(error).describes(final(self)@, step),
    {
        self.settle(State::Uninitialized, vec![clear()], Next::Done(Err(error)))
    }

    fn abort(&mut self, error: Error) -> (step: Step)
        ensures
            old(self)@.abort(error).describes(final(self)@, step),
    {
        let state = self.state;
        self.settle(state, vec![clear()], Next::Done(Err(error)))
    }

    fn configure(&self) -> (action: Action)
        ensures
            action == configure(self@.config),
    {
        Action::Configure { bus_width: self.config.bus_width, clock: self.config.clock() }
    }

    /// Brings the card up. A call made while the card has yet to power up
    /// asks it again; any other call begins from the start, whatever the
    /// state was. A call made with a command in flight is refused as `Busy`.
    pub fn init_card(&mut self) -> (step: Step)
        ensures
            old(self)@.init_card().describes(final(self)@, step),
            !(old(self)@.exchange is Idle) ==> step.next == Next::Done(Err(Error::Busy)),
            !(old(self)@.exchange is Idle) ==> final(self)@ == old(self)@,
            old(self)@.exchange is Idle ==> step.next is Await,
    {
        match self.exchange {
            Exchange::Idle => {},
            _ => {
                return self.refuse(Error::Busy);
            },
        }
        match self.state {
            State::Init1(v2) => {
                let actions = vec![send(Command::APP_COMMAND, 0, ResponseKind::Short)];
                self.issue(Exchange::AppOperatingConditions { v2 }, actions)
            },
            _ => {
                let actions = vec![
                    Action::PowerOn {
                        clock_divider: INIT_CLOCK_DIVIDER,
                        data_timeout: self.config.data_timeout,
                    },
                    send(Command::GO_IDLE_STATE, 0, ResponseKind::Silent),
                ];
                self.state = State::Uninitialized;
                self.issue(Exchange::GoIdle, actions)
            },
        }
    }

    /// The card's identification, as read when the card was brought up.
    pub fn card_id(&mut self) -> (cid: Result<CID, Error>)
        ensures
            final(self)@ == old(self)@,
            cid == old(self)@.card_id(),
            cid is Ok <==> old(self)@.initialized(),
    {
        match self.state {
            State::Uninitialized | State::Init1(_) => Err(Error::Uninitialized),
            _ => Ok(self.cid),
        }
    }

    /// The card's size in blocks, by the capacity descriptor read when the
    /// card was brought up.
    pub fn card_size(&mut self) -> (size: Result<BlockCount, Error>)
        ensures
            final(self)@ == old(self)@,
            size == old(self)@.card_size(),
            size is Ok <==> old(self)@.initialized(),
    {
        match self.state {
            State::Uninitialized | State::Init1(_) => Err(Error::Uninitialized),
            _ => Ok(self.csd.capacity()),
        }
    }

    /// Starts the erase of the whole card.
    pub fn erase_card(&mut self) -> (step: Step)
        ensures
            old(self)@.erase_card().describes(final(self)@, step),
            old(self)@.readiness() matches Err(e) ==> step.next == Next::Done(Err(e)),
            old(self)@.readiness() is Err ==> final(self)@ == old(self)@,
    {
        let blocks = self.csd.capacity();
        let end: u32 = if blocks == 0 {
            0xffff_ffff
        } else {
            blocks - 1
        };
        self.erase(0, end)
    }

    /// Starts the transfer of the card's SD status register, 64 bytes, into
    /// the buffer of the operation. The register is there once `result`
    /// reports the end of the transfer.
    pub fn read_sd_status(&mut self) -> (step: Step)
        ensures
            old(self)@.read_sd_status().describes(final(self)@, step),
            old(self)@.readiness() matches Err(e) ==> step.next == Next::Done(Err(e)),
            old(self)@.readiness() is Err ==> final(self)@ == old(self)@,
    {
        match self.check_ready() {
            Err(e) => self.refuse(e),
            Ok(_) => {
                let actions = vec![
                    self.configure(),
                    send(Command::APP_COMMAND, self.rca, ResponseKind::Short),
                ];
                self.issue(Exchange::AppSdStatus, actions)
            },
        }
    }

    /// Starts the erase of the blocks from `start` to `end`.
    pub fn erase(&mut self, start: BlockIndex, end: BlockIndex) -> (step: Step)
        ensures
            old(self)@.erase(start, end).describes(final(self)@, step),
            old(self)@.readiness() matches Err(e) ==> step.next == Next::Done(Err(e)),
            old(self)@.readiness() is Err ==> final(self)@ == old(self)@,
    {
        match self.check_ready() {
            Err(e) => self.refuse(e),
            Ok(_) => {
                let actions = vec![
                    self.configure(),
                    send(Command::ERASE_WR_BLK_START, start, ResponseKind::Short),
                ];
                self.issue(Exchange::EraseStart { end }, actions)
            },
        }
    }

    /// Forgets the card and has the controller powered off. Legal at any
    /// time; a transfer that is outstanding is not waited for.
    pub fn reset(&mut self) -> (step: Step)
        ensures
            old(self)@.reset().describes(final(self)@, step),
            final(self)@.state is Uninitialized,
            final(self)@.exchange is Idle,
    {
        self.settle(State::Uninitialized, vec![Action::PowerOff], Next::Done(Ok(())))
    }

    /// Starts the read of the block at `address` into the buffer of the
    /// operation, which is not to be touched before `result` reports the end
    /// of the transfer.
    pub fn read_block(&mut self, address: BlockIndex) -> (step: Step)
        ensures
            old(self)@.read_block(address).describes(final(self)@, step),
            old(self)@.readiness() matches Err(e) ==> step.next == Next::Done(Err(e)),
            old(self)@.readiness() is Err ==> final(self)@ == old(self)@,
    {
        match self.check_ready() {
            Err(e) => self.refuse(e),
            Ok(_) => {
                proof {
                    lemma2_to64();
                    assert(BLOCK_SIZE as int == vstd::arithmetic::power2::pow2(9));
                }
                let actions = vec![
                    self.configure(),
                    arm_dma(Direction::Receive, BLOCK_SIZE as u32),
                    Action::StartData {
                        direction: Direction::Receive,
                        length: BLOCK_SIZE as u32,
                        block_size_log2: 9,
                    },
                    send(Command::READ_BLOCK, address, ResponseKind::Short),
                ];
                self.issue(Exchange::ReadBlock, actions)
            },
        }
    }

    /// Starts the write of `count` blocks from the buffer of the operation
    /// to the card, from `address` on. The buffer is not to be changed
    /// before `result` reports the end of the transfer. The blocks must make
    /// up a length that the DMA channel can be set up for.
    pub fn write_blocks(&mut self, count: BlockCount, address: BlockIndex) -> (step: Step)
        requires
            valid_length(count * BLOCK_SIZE),
        ensures
            old(self)@.write_blocks(count, address).describes(final(self)@, step),
            old(self)@.readiness() matches Err(e) ==> step.next == Next::Done(Err(e)),
            old(self)@.readiness() is Err ==> final(self)@ == old(self)@,
    {
        match self.check_ready() {
            Err(e) => self.refuse(e),
            Ok(_) => {
                let length: u32 = count * (BLOCK_SIZE as u32);
                if count == 1 {
                    let actions = vec![
                        self.configure(),
                        arm_dma(Direction::Send, length),
                        send(Command::WRITE_BLOCK, address, ResponseKind::Short),
                    ];
                    self.issue(Exchange::WriteBlocks { multiple: false, length }, actions)
                } else {
                    let transfer = Transfer::new(length, Direction::Send);
                    let actions = vec![
                        self.configure(),
                        send(Command::SET_BLOCK_COUNT, count, ResponseKind::Short),
                    ];
                    self.issue(Exchange::BlockCount { address, transfer, length }, actions)
                }
            },
        }
    }

    /// Starts the write of one block from the buffer of the operation to the
    /// card at `address`.
    pub fn write_block(&mut self, address: BlockIndex) -> (step: Step)
        ensures
            old(self)@.write_blocks(1, address).describes(final(self)@, step),
            old(self)@.readiness() matches Err(e) ==> step.next == Next::Done(Err(e)),
            old(self)@.readiness() is Err ==> final(self)@ == old(self)@,
    {
        proof {
            lemma2_to64();
            assert(1 * BLOCK_SIZE == vstd::arithmetic::power2::pow2(9));
        }
        self.write_blocks(1, address)
    }

    /// Asks whether the outstanding operation has ended. The answer comes
    /// with the step that follows the readout: `Pending` while the
    /// operation runs, else its result, with the session `Ready` again.
    /// Before the card is brought up the call fails as `Uninitialized`, and
    /// with no operation outstanding as `NoOperation`.
    pub fn result(&mut self) -> (step: Step)
        ensures
            old(self)@.result().describes(final(self)@, step),
            !old(self)@.initialized() ==> step.next == Next::Done(Err(Error::Uninitialized)),
            old(self)@.state is Ready && old(self)@.exchange is Idle ==> step.next == Next::Done(
                Err(Error::NoOperation),
            ),
            !old(self)@.initialized() || old(self)@.state is Ready ==> final(self)@ == old(self)@,
    {
        match self.state {
            State::Uninitialized | State::Init1(_) => {
                return self.refuse(Error::Uninitialized);
            },
            _ => {},
        }
        match self.exchange {
            Exchange::Idle => {},
            _ => {
                return self.refuse(Error::Busy);
            },
        }
        match self.state {
            State::Reading => self.issue(
                Exchange::DataEnd { direction: Direction::Receive },
                Vec::new(),
            ),
            State::Writing => self.issue(
                Exchange::DataEnd { direction: Direction::Send },
                Vec::new(),
            ),
            State::Erasing => {
                let actions = vec![send(Command::SEND_STATUS, self.rca, ResponseKind::Short)];
                self.issue(Exchange::CardStatus, actions)
            },
            _ => self.refuse(Error::NoOperation),
        }
    }
}

impl Device {
    fn after_go_idle(&mut self, readout: &Readout) -> (step: Step)
        ensures
            old(self)@.after_go_idle(*readout).describes(final(self)@, step),
    {
        match card_command_none(readout) {
            Progress::Pending => self.wait(),
            Progress::Done(Err(e)) => self.fail_init(e),
            Progress::Done(Ok(_)) => {
                let actions = vec![
                    clear(),
                    send(Command::SEND_IF_COND, SEND_IF_COND_PATTERN, ResponseKind::Short),
                ];
                self.issue(Exchange::InterfaceCondition, actions)
            },
        }
    }

    fn after_interface_condition(&mut self, readout: &Readout) -> (step: Step)
        ensures
            old(self)@.after_interface_condition(*readout).describes(final(self)@, step),
    {
        match card_command_short(Command::SEND_IF_COND, readout) {
            Progress::Pending => self.wait(),
            Progress::Done(answer) => match check_operating_conditions(answer) {
                Err(e) => self.fail_init(e),
                Ok(v2) => {
                    let actions = vec![
                        clear(),
                        send(Command::APP_COMMAND, 0, ResponseKind::Short),
                    ];
                    self.state = State::Init1(v2);
                    self.issue(Exchange::AppOperatingConditions { v2 }, actions)
                },
            },
        }
    }

    fn after_app_operating_conditions(&mut self, v2: bool, readout: &Readout) -> (step: Step)
        ensures
            old(self)@.after_app_operating_conditions(v2, *readout).describes(final(self)@, step),
    {
        match card_command_short(Command::APP_COMMAND, readout) {
            Progress::Pending => self.wait(),
            Progress::Done(Err(e)) => self.fail_init(negotiation_failure(v2, e)),
            Progress::Done(Ok(_)) => {
                let argument: u32 = if v2 {
                    0x4010_0000
                } else {
                    0x0010_0000
                };
                let actions = vec![clear(), send_app(AppCommand::SD_SEND_OP_COND, argument)];
                self.issue(Exchange::OperatingConditions { v2 }, actions)
            },
        }
    }

    fn after_operating_conditions(&mut self, v2: bool, readout: &Readout) -> (step: Step)
        ensures
            old(self)@.after_operating_conditions(v2, *readout).describes(final(self)@, step),
    {
        match acmd41(readout) {
            Progress::Pending => self.wait(),
            Progress::Done(Err(e)) => self.fail_init(negotiation_failure(v2, e)),
            Progress::Done(Ok(ocr)) => {
                if !test_bit(ocr, 31) {
                    self.settle(State::Init1(v2), vec![clear()], Next::Pending)
                } else {
                    let actions = vec![
                        clear(),
                        send(Command::ALL_SEND_CID, 0, ResponseKind::Long),
                    ];
                    self.card_version = card_version(v2, test_bit(ocr, 30));
                    self.issue(Exchange::AllSendCid, actions)
                }
            },
        }
    }

    fn after_long(&mut self, settled: Exchange, readout: &Readout) -> (step: Step)
        ensures
            old(self)@.after_long(settled, *readout).describes(final(self)@, step),
    {
        match card_command_long(readout) {
            Progress::Pending => self.wait(),
            Progress::Done(Err(e)) => self.fail_init(e),
            Progress::Done(Ok(_)) => {
                let actions = vec![clear(), Action::Settle { cycles: SETTLE_CYCLES }];
                self.issue(settled, actions)
            },
        }
    }

    fn after_cid_settle(&mut self, readout: &Readout) -> (step: Step)
        ensures
            old(self)@.after_cid_settle(*readout).describes(final(self)@, step),
    {
        let actions = vec![send(Command::SEND_RELATIVE_ADDR, 0, ResponseKind::Short)];
        self.cid = readout.words;
        self.issue(Exchange::RelativeAddress, actions)
    }

    fn after_relative_address(&mut self, readout: &Readout) -> (step: Step)
        ensures
            old(self)@.after_relative_address(*readout).describes(final(self)@, step),
    {
        match card_command_short(Command::SEND_RELATIVE_ADDR, readout) {
            Progress::Pending => self.wait(),
            Progress::Done(Err(e)) => self.fail_init(e),
            Progress::Done(Ok(answer)) => {
                let rca: u32 = answer & RCA_MASK;
                let actions = vec![clear(), send(Command::SEND_CSD, rca, ResponseKind::Long)];
                self.rca = rca;
                self.issue(Exchange::SendCsd, actions)
            },
        }
    }

    fn after_csd_settle(&mut self, readout: &Readout) -> (step: Step)
        ensures
            old(self)@.after_csd_settle(*readout).describes(final(self)@, step),
    {
        let actions = vec![send(Command::SELECT_CARD, self.rca, ResponseKind::Short)];
        self.csd = match self.card_version {
            CardVersion::V1SC | CardVersion::V2SC => CSD::V1(readout.words),
            CardVersion::V2HC => CSD::V2(readout.words),
        };
        self.issue(Exchange::SelectCard, actions)
    }

    fn after_select_card(&mut self, readout: &Readout) -> (step: Step)
        ensures
            old(self)@.after_select_card(*readout).describes(final(self)@, step),
    {
        match card_command_short(Command::SELECT_CARD, readout) {
            Progress::Pending => self.wait(),
            Progress::Done(Err(e)) => self.fail_init(e),
            Progress::Done(Ok(_)) => {
                let actions = vec![
                    clear(),
                    send(Command::APP_COMMAND, self.rca, ResponseKind::Short),
                ];
                self.issue(Exchange::AppBusWidth, actions)
            },
        }
    }

    fn after_app_bus_width(&mut self, readout: &Readout) -> (step: Step)
        ensures
            old(self)@.after_app_bus_width(*readout).describes(final(self)@, step),
    {
        match card_command_short(Command::APP_COMMAND, readout) {
            Progress::Pending => self.wait(),
            Progress::Done(Err(e)) => self.fail_init(e),
            Progress::Done(Ok(_)) => {
                let actions = vec![
                    clear(),
                    send_app(AppCommand::SET_BUS_WIDTH, self.config.bus_width_argument()),
                ];
                self.issue(Exchange::SetBusWidth, actions)
            },
        }
    }

    fn after_set_bus_width(&mut self, readout: &Readout) -> (step: Step)
        ensures
            old(self)@.after_set_bus_width(*readout).describes(final(self)@, step),
    {
        match app_command_short(readout) {
            Progress::Pending => self.wait(),
            Progress::Done(Err(e)) => self.fail_init(e),
            Progress::Done(Ok(_)) => {
                let actions = vec![clear(), self.configure()];
                self.settle(State::Ready, actions, Next::Done(Ok(())))
            },
        }
    }

    fn after_start(&mut self, outcome: Progress<u32>, state: State) -> (step: Step)
        ensures
            old(self)@.after_start(outcome, state).describes(final(self)@, step),
    {
        match outcome {
            Progress::Pending => self.wait(),
            Progress::Done(Err(e)) => self.abort(e),
            Progress::Done(Ok(_)) => self.settle(state, vec![clear()], Next::Done(Ok(()))),
        }
    }

    fn after_block_count(
        &mut self,
        address: BlockIndex,
        transfer: Transfer,
        length: u32,
        readout: &Readout,
    ) -> (step: Step)
        ensures
            old(self)@.after_block_count(address, transfer, length, *readout).describes(
                final(self)@,
                step,
            ),
    {
        match card_command_short(Command::SET_BLOCK_COUNT, readout) {
            Progress::Pending => self.wait(),
            Progress::Done(Err(e)) => self.abort(e),
            Progress::Done(Ok(_)) => {
                let actions = vec![
                    clear(),
                    Action::StartDma(transfer),
                    send(Command::WRITE_MULTIPLE_BLOCK, address, ResponseKind::Short),
                ];
                self.issue(Exchange::WriteBlocks { multiple: true, length }, actions)
            },
        }
    }

    fn after_write_blocks(&mut self, multiple: bool, length: u32, readout: &Readout) -> (step:
        Step)
        ensures
            old(self)@.after_write_blocks(multiple, length, *readout).describes(
                final(self)@,
                step,
            ),
    {
        let cmd = if multiple {
            Command::WRITE_MULTIPLE_BLOCK
        } else {
            Command::WRITE_BLOCK
        };
        match card_command_short(cmd, readout) {
            Progress::Pending => self.wait(),
            Progress::Done(Err(e)) => self.abort(e),
            Progress::Done(Ok(_)) => {
                let actions = vec![
                    clear(),
                    Action::StartData { direction: Direction::Send, length, block_size_log2: 9 },
                ];
                self.settle(State::Writing, actions, Next::Done(Ok(())))
            },
        }
    }

    fn after_erase_start(&mut self, end: BlockIndex, readout: &Readout) -> (step: Step)
        ensures
            old(self)@.after_erase_start(end, *readout).describes(final(self)@, step),
    {
        match card_command_short(Command::ERASE_WR_BLK_START, readout) {
            Progress::Pending => self.wait(),
            Progress::Done(Err(e)) => self.abort(e),
            Progress::Done(Ok(_)) => {
                let actions = vec![
                    clear(),
                    send(Command::ERASE_WR_BLK_END, end, ResponseKind::Short),
                ];
                self.issue(Exchange::EraseEnd, actions)
            },
        }
    }

    fn after_erase_end(&mut self, readout: &Readout) -> (step: Step)
        ensures
            old(self)@.after_erase_end(*readout).describes(final(self)@, step),
    {
        match card_command_short(Command::ERASE_WR_BLK_END, readout) {
            Progress::Pending => self.wait(),
            Progress::Done(Err(e)) => self.abort(e),
            Progress::Done(Ok(_)) => {
                let actions = vec![clear(), send(Command::ERASE, 0, ResponseKind::Short)];
                self.issue(Exchange::EraseConfirm, actions)
            },
        }
    }

    fn after_app_sd_status(&mut self, readout: &Readout) -> (step: Step)
        ensures
            old(self)@.after_app_sd_status(*readout).describes(final(self)@, step),
    {
        match card_command_short(Command::APP_COMMAND, readout) {
            Progress::Pending => self.wait(),
            Progress::Done(Err(e)) => self.abort(e),
            Progress::Done(Ok(_)) => {
                proof {
                    lemma2_to64();
                    assert(SD_STATUS_SIZE as int == vstd::arithmetic::power2::pow2(6));
                }
                let actions = vec![
                    clear(),
                    arm_dma(Direction::Receive, SD_STATUS_SIZE),
                    Action::StartData {
                        direction: Direction::Receive,
                        length: SD_STATUS_SIZE,
                        block_size_log2: 6,
                    },
                    send_app(AppCommand::SD_STATUS, 0),
                ];
                self.issue(Exchange::SdStatus, actions)
            },
        }
    }

    fn after_data_end(&mut self, direction: Direction, readout: &Readout) -> (step: Step)
        ensures
            old(self)@.after_data_end(direction, *readout).describes(final(self)@, step),
    {
        let active = match direction {
            Direction::Receive => readout.flags.receive_active,
            Direction::Send => readout.flags.transmit_active,
        };
        if active {
            let state = self.state;
            self.settle(state, Vec::new(), Next::Pending)
        } else {
            let actions = vec![Action::StopDma, clear()];
            self.settle(State::Ready, actions, Next::Done(check_data(&readout.flags)))
        }
    }

    fn after_card_status(&mut self, readout: &Readout) -> (step: Step)
        ensures
            old(self)@.after_card_status(*readout).describes(final(self)@, step),
    {
        match card_command_short(Command::SEND_STATUS, readout) {
            Progress::Pending => self.wait(),
            Progress::Done(Err(e)) => self.abort(e),
            Progress::Done(Ok(status)) => {
                if CardStatus::new(status).ready_for_data() {
                    self.settle(State::Ready, vec![clear()], Next::Done(Ok(())))
                } else {
                    let state = self.state;
                    self.settle(state, vec![clear()], Next::Pending)
                }
            },
        }
    }

    /// Goes on after the command in flight, by what the controller shows.
    /// While the command is still active nothing changes and the controller
    /// is to be read again. With no command in flight the call fails as
    /// `NoOperation`.
    pub fn advance(&mut self, readout: &Readout) -> (step: Step)
        ensures
            old(self)@.advance(*readout).describes(final(self)@, step),
            old(self)@.exchange is Idle ==> step.next == Next::Done(Err(Error::NoOperation)),
            old(self)@.exchange is Idle ==> final(self)@ == old(self)@,
    {
        match self.exchange {
            Exchange::Idle => self.refuse(Error::NoOperation),
            Exchange::GoIdle => self.after_go_idle(readout),
            Exchange::InterfaceCondition => self.after_interface_condition(readout),
            Exchange::AppOperatingConditions { v2 } => self.after_app_operating_conditions(
                v2,
                readout,
            ),
            Exchange::OperatingConditions { v2 } => self.after_operating_conditions(v2, readout),
            Exchange::AllSendCid => self.after_long(Exchange::CidSettle, readout),
            Exchange::CidSettle => self.after_cid_settle(readout),
            Exchange::RelativeAddress => self.after_relative_address(readout),
            Exchange::SendCsd => self.after_long(Exchange::CsdSettle, readout),
            Exchange::CsdSettle => self.after_csd_settle(readout),
            Exchange::SelectCard => self.after_select_card(readout),
            Exchange::AppBusWidth => self.after_app_bus_width(readout),
            Exchange::SetBusWidth => self.after_set_bus_width(readout),
            Exchange::ReadBlock => self.after_start(
                card_command_short(Command::READ_BLOCK, readout),
                State::Reading,
            ),
            Exchange::BlockCount { address, transfer, length } => self.after_block_count(
                address,
                transfer,
                length,
                readout,
            ),
            Exchange::WriteBlocks { multiple, length } => self.after_write_blocks(
                multiple,
                length,
                readout,
            ),
            Exchange::EraseStart { end } => self.after_erase_start(end, readout),
            Exchange::EraseEnd => self.after_erase_end(readout),
            Exchange::EraseConfirm => self.after_start(
                card_command_short(Command::ERASE, readout),
                State::Erasing,
            ),
            Exchange::AppSdStatus => self.after_app_sd_status(readout),
            Exchange::SdStatus => self.after_start(app_command_short(readout), State::Reading),
            Exchange::DataEnd { direction } => self.after_data_end(direction, readout),
            Exchange::CardStatus => self.after_card_status(readout),
        }
    }
}


} // verus!
