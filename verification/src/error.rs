use vstd::prelude::*;

verus! {

/// Everything that can go wrong while talking to a card.
#[derive(Copy, Clone, Debug, PartialEq, Eq, Structural)]
pub enum Error {
    /// The card does not respond at all; it is probably missing or unpowered.
    NoCard,
    /// The session has not completed initialization.
    Uninitialized,
    /// The DMA engine could not keep up with the card during a read.
    ReceiveOverrun,
    /// The DMA engine could not keep up with the card during a write.
    SendUnderrun,
    /// A command or a data phase exceeded its timeout.
    Timeout,
    /// A CRC check failed for a command or a data phase.
    CRCFail,
    /// The card does not support the supplied voltage.
    OperatingConditionsNotSupported,
    /// The response does not belong to the command that was issued.
    UnexpectedResponse,
    /// The controller's flags do not say how the operation ended.
    UnknownResult,
    /// Another operation is still outstanding.
    Busy,
    /// A result was requested but no operation had been started.
    NoOperation,
    /// A decoded field holds a value outside its encoding.
    InvalidValue,
}

} // verus!
