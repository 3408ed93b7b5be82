use vstd::prelude::*;
use crate::command::Command;
use crate::error::Error;

verus! {

/// The status flags that are acknowledged once a command or a data phase has
/// been seen to end.
pub const STATUS_ERROR_MASK: u32 = 0x0000_05ff;

/// The flags of the controller's status register that the protocol reads.
#[derive(Copy, Clone, Debug, PartialEq, Eq)]
pub struct Flags {
    /// A command transfer is in progress.
    pub command_active: bool,
    /// A response arrived and failed its CRC check.
    pub command_crc_fail: bool,
    /// No response arrived in time.
    pub command_timeout: bool,
    /// A response arrived and passed its CRC check.
    pub response_received: bool,
    /// A command without response has been sent.
    pub command_sent: bool,
    /// Data is being received.
    pub receive_active: bool,
    /// Data is being transmitted.
    pub transmit_active: bool,
    /// A data block failed its CRC check.
    pub data_crc_fail: bool,
    /// The data phase exceeded its timeout.
    pub data_timeout: bool,
    /// The receive FIFO overran.
    pub receive_overrun: bool,
    /// The transmit FIFO underran.
    pub transmit_underrun: bool,
    /// The data counter reached zero.
    pub data_end: bool,
    /// A data block passed its CRC check.
    pub block_end: bool,
}

/// What the controller shows at one instant: its status flags, the command
/// index echoed in the last response, and the four response words.
#[derive(Copy, Clone, Debug, PartialEq, Eq)]
pub struct Readout {
    pub flags: Flags,
    pub index: u8,
    pub words: [u32; 4],
}

/// The outcome of looking at something that may still be running.
#[derive(Debug, PartialEq, Eq)]
pub enum Progress<T> {
    /// It has not finished: look again later.
    Pending,
    /// It has finished, well or badly.
    Done(Result<T, Error>),
}

/// How a command has ended, by the controller's flags, tested in this order:
/// still active, CRC failure, timeout, then whether the flag that fits the
/// expectation of a response is set.
pub open spec fn command_outcome(flags: Flags, expect_response: bool) -> Progress<()> {
    if flags.command_active {
        Progress::Pending
    } else if flags.command_crc_fail {
        Progress::Done(Err(Error::CRCFail))
    } else if flags.command_timeout {
        Progress::Done(Err(Error::Timeout))
    } else if expect_response && !flags.response_received {
        Progress::Done(Err(Error::UnknownResult))
    } else if !expect_response && !flags.command_sent {
        Progress::Done(Err(Error::UnknownResult))
    } else {
        Progress::Done(Ok(()))
    }
}

/// How a command with a short response has ended. A response that echoes
/// another index than the one issued does not belong to the command.
pub open spec fn short_outcome(index: u8, readout: Readout) -> Progress<u32> {
    match command_outcome(readout.flags, true) {
        Progress::Pending => Progress::Pending,
        Progress::Done(Err(e)) => Progress::Done(Err(e)),
        Progress::Done(Ok(_)) => if readout.index != index {
            Progress::Done(Err(Error::UnexpectedResponse))
        } else {
            Progress::Done(Ok(readout.words[0]))
        },
    }
}

/// How an application command with a short response has ended. Its response
/// is taken without a look at the echoed index.
pub open spec fn app_outcome(readout: Readout) -> Progress<u32> {
    match command_outcome(readout.flags, true) {
        Progress::Pending => Progress::Pending,
        Progress::Done(Err(e)) => Progress::Done(Err(e)),
        Progress::Done(Ok(_)) => Progress::Done(Ok(readout.words[0])),
    }
}

/// How the operating-conditions exchange has ended. Its response carries no
/// CRC, so a CRC failure there is the sign of a response and counts as
/// success; every other failure stands.
pub open spec fn op_cond_outcome(readout: Readout) -> Progress<u32> {
    match command_outcome(readout.flags, true) {
        Progress::Pending => Progress::Pending,
        Progress::Done(Err(Error::CRCFail)) => Progress::Done(Ok(readout.words[0])),
        Progress::Done(Err(e)) => Progress::Done(Err(e)),
        Progress::Done(Ok(_)) => Progress::Done(Ok(readout.words[0])),
    }
}

/// How a data phase that is no longer active has ended, by the controller's
/// flags, tested in this order: CRC failure, timeout, receive overrun,
/// transmit underrun, then whether both end flags are set.
pub open spec fn data_outcome(flags: Flags) -> Result<(), Error> {
    if flags.data_crc_fail {
        Err(Error::CRCFail)
    } else if flags.data_timeout {
        Err(Error::Timeout)
    } else if flags.receive_overrun {
        Err(Error::ReceiveOverrun)
    } else if flags.transmit_underrun {
        Err(Error::SendUnderrun)
    } else if !flags.data_end || !flags.block_end {
        Err(Error::UnknownResult)
    } else {
        Ok(())
    }
}

/// Classifies the end of a command from the controller's flags.
pub fn check_command(flags: &Flags, expect_response: bool) -> (outcome: Progress<()>)
    ensures
        outcome == command_outcome(*flags, expect_response),
        outcome is Pending <==> flags.command_active,
{
    if flags.command_active {
        Progress::Pending
    } else if flags.command_crc_fail {
        Progress::Done(Err(Error::CRCFail))
    } else if flags.command_timeout {
        Progress::Done(Err(Error::Timeout))
    } else if expect_response && !flags.response_received {
        Progress::Done(Err(Error::UnknownResult))
    } else if !expect_response && !flags.command_sent {
        Progress::Done(Err(Error::UnknownResult))
    } else {
        Progress::Done(Ok(()))
    }
}

/// Classifies the end of a command that has no response.
pub fn card_command_none(readout: &Readout) -> (outcome: Progress<()>)
    ensures
        outcome == command_outcome(readout.flags, false),
{
    check_command(&readout.flags, false)
}

/// Classifies the end of `cmd`, a command with a short response, and yields
/// the response word.
pub fn card_command_short(cmd: Command, readout: &Readout) -> (outcome: Progress<u32>)
    ensures
        outcome == short_outcome(cmd.index(), *readout),
{
    match check_command(&readout.flags, true) {
        Progress::Pending => Progress::Pending,
        Progress::Done(Err(e)) => Progress::Done(Err(e)),
        Progress::Done(Ok(_)) => {
            if readout.index != cmd.code() {
                Progress::Done(Err(Error::UnexpectedResponse))
            } else {
                Progress::Done(Ok(readout.words[0]))
            }
        },
    }
}

/// Classifies the end of a command with a long response. The four response
/// words are to be read only after the settling delay that follows success.
pub fn card_command_long(readout: &Readout) -> (outcome: Progress<()>)
    ensures
        outcome == command_outcome(readout.flags, true),
{
    check_command(&readout.flags, true)
}

/// Classifies the end of an application command with a short response and
/// yields the response word.
pub fn app_command_short(readout: &Readout) -> (outcome: Progress<u32>)
    ensures
        outcome == app_outcome(*readout),
{
    match check_command(&readout.flags, true) {
        Progress::Pending => Progress::Pending,
        Progress::Done(Err(e)) => Progress::Done(Err(e)),
        Progress::Done(Ok(_)) => Progress::Done(Ok(readout.words[0])),
    }
}

/// Classifies the end of the operating-conditions exchange and yields the
/// card's operating-conditions word.
pub fn acmd41(readout: &Readout) -> (outcome: Progress<u32>)
    ensures
        outcome == op_cond_outcome(*readout),
{
    match check_command(&readout.flags, true) {
        Progress::Pending => Progress::Pending,
        Progress::Done(Err(Error::CRCFail)) => Progress::Done(Ok(readout.words[0])),
        Progress::Done(Err(e)) => Progress::Done(Err(e)),
        Progress::Done(Ok(_)) => Progress::Done(Ok(readout.words[0])),
    }
}

/// Classifies the end of a data phase that is no longer active.
pub fn check_data(flags: &Flags) -> (outcome: Result<(), Error>)
    ensures
        outcome == data_outcome(*flags),
{
    if flags.data_crc_fail {
        Err(Error::CRCFail)
    } else if flags.data_timeout {
        Err(Error::Timeout)
    } else if flags.receive_overrun {
        Err(Error::ReceiveOverrun)
    } else if flags.transmit_underrun {
        Err(Error::SendUnderrun)
    } else if !flags.data_end || !flags.block_end {
        Err(Error::UnknownResult)
    } else {
        Ok(())
    }
}

} // verus!
