//! What holds of every session, proved of the model that the device's
//! contracts refer to.
use vstd::prelude::*;
use crate::block::{BlockCount, BlockIndex, BLOCK_SIZE};
use crate::dma::valid_length;
use crate::error::Error;
use crate::session::{Outcome, Session};
use crate::step::{Exchange, Next, State};
use crate::transport::Readout;

verus! {

/// Whether `exchange` is a command of the bring-up, or the settling delay
/// after one.
pub open spec fn in_bring_up(exchange: Exchange) -> bool {
    exchange is GoIdle || exchange is InterfaceCondition || exchange is AppOperatingConditions
        || exchange is OperatingConditions || exchange is AllSendCid || exchange is CidSettle
        || exchange is RelativeAddress || exchange is SendCsd || exchange is CsdSettle
        || exchange is SelectCard || exchange is AppBusWidth || exchange is SetBusWidth
}

/// Whether `exchange` is a command whose end the controller's command flags
/// tell: anything in flight but a settling delay and the wait for the data
/// path.
pub open spec fn is_command(exchange: Exchange) -> bool {
    !(exchange is Idle) && !(exchange is CidSettle) && !(exchange is CsdSettle) && !(exchange is DataEnd)
}

/// Whether an operation is outstanding in `state`.
pub open spec fn outstanding(state: State) -> bool {
    state is Reading || state is Writing || state is Erasing
}

/// Whether a session may pass from state `from` to state `to` in the course
/// of an operation: it stays where it is, or an operation starts from
/// `Ready`, or the outstanding operation ends in `Ready`.
pub open spec fn operation_edge(from: State, to: State) -> bool {
    ||| to == from
    ||| from is Ready && outstanding(to)
    ||| outstanding(from) && to is Ready
}

/// Every call keeps the command in flight fitting the state.
pub proof fn lemma_calls_preserve_wf(
    session: Session,
    count: BlockCount,
    address: BlockIndex,
    end: BlockIndex,
    readout: Readout,
)
    requires
        session.wf(),
    ensures
        session.init_card().session.wf(),
        session.read_block(address).session.wf(),
        valid_length(count * BLOCK_SIZE) ==> session.write_blocks(count, address).session.wf(),
        session.erase(address, end).session.wf(),
        session.erase_card().session.wf(),
        session.read_sd_status().session.wf(),
        session.result().session.wf(),
        session.reset().session.wf(),
        session.advance(readout).session.wf(),
{
}

/// While a read, a write or an erase is outstanding, the start of another
/// operation fails as `Busy`: nothing is to be done, and the session stays
/// exactly as it was.
pub proof fn lemma_outstanding_refuses_start(
    session: Session,
    count: BlockCount,
    address: BlockIndex,
    end: BlockIndex,
)
    requires
        outstanding(session.state),
    ensures
        session.read_block(address) == session.refuse(Error::Busy),
        session.write_blocks(count, address) == session.refuse(Error::Busy),
        session.erase(address, end) == session.refuse(Error::Busy),
        session.erase_card() == session.refuse(Error::Busy),
        session.read_sd_status() == session.refuse(Error::Busy),
        session.refuse(Error::Busy).session == session,
        session.refuse(Error::Busy).actions.len() == 0,
        session.refuse(Error::Busy).next == Next::Done(Err(Error::Busy)),
{
}

/// Before the card is brought up, the start of an operation and the request
/// for a result fail as `Uninitialized`, and the session stays as it was.
pub proof fn lemma_uninitialized_refuses(
    session: Session,
    count: BlockCount,
    address: BlockIndex,
    end: BlockIndex,
)
    requires
        !session.initialized(),
    ensures
        session.read_block(address) == session.refuse(Error::Uninitialized),
        session.write_blocks(count, address) == session.refuse(Error::Uninitialized),
        session.erase(address, end) == session.refuse(Error::Uninitialized),
        session.erase_card() == session.refuse(Error::Uninitialized),
        session.read_sd_status() == session.refuse(Error::Uninitialized),
        session.result() == session.refuse(Error::Uninitialized),
        session.card_id() == Err::<crate::csd::CID, Error>(Error::Uninitialized),
        session.card_size() == Err::<BlockCount, Error>(Error::Uninitialized),
{
}

/// The request for a result with no operation started fails as
/// `NoOperation`, and the session stays as it was.
pub proof fn lemma_result_without_operation(session: Session)
    requires
        session.state is Ready,
        session.exchange is Idle,
    ensures
        session.result() == session.refuse(Error::NoOperation),
{
}

/// The states of a session that has been brought up change only along the
/// edges of an operation: from `Ready` to `Reading`, `Writing` or `Erasing`,
/// and from there back to `Ready`. Only `init_card` and `reset` leave them.
pub proof fn lemma_operation_edges(
    session: Session,
    count: BlockCount,
    address: BlockIndex,
    end: BlockIndex,
    readout: Readout,
)
    requires
        session.wf(),
        session.initialized(),
    ensures
        operation_edge(session.state, session.read_block(address).session.state),
        operation_edge(session.state, session.write_blocks(count, address).session.state),
        operation_edge(session.state, session.erase(address, end).session.state),
        operation_edge(session.state, session.erase_card().session.state),
        operation_edge(session.state, session.read_sd_status().session.state),
        operation_edge(session.state, session.result().session.state),
        operation_edge(session.state, session.advance(readout).session.state),
{
}

/// A call that starts an operation, or that asks for a result, changes
/// nothing of the session but the command in flight: the state moves only
/// when a readout is taken.
pub proof fn lemma_starts_keep_state(
    session: Session,
    count: BlockCount,
    address: BlockIndex,
    end: BlockIndex,
)
    ensures
        session.read_block(address).session == (Session {
            exchange: session.read_block(address).session.exchange,
            ..session
        }),
        session.write_blocks(count, address).session == (Session {
            exchange: session.write_blocks(count, address).session.exchange,
            ..session
        }),
        session.erase(address, end).session == (Session {
            exchange: session.erase(address, end).session.exchange,
            ..session
        }),
        session.read_sd_status().session == (Session {
            exchange: session.read_sd_status().session.exchange,
            ..session
        }),
        session.result().session == (Session {
            exchange: session.result().session.exchange,
            ..session
        }),
{
}

/// A bring-up ends in one of three ways. If a command of it fails, the
/// session is `Uninitialized` with nothing in flight, so that the next
/// `init_card` begins from the start. If the card has yet to power up, the
/// call is pending in `Init1`. If it succeeds, the session is `Ready`.
pub proof fn lemma_bring_up_ends(session: Session, readout: Readout)
    requires
        session.wf(),
        in_bring_up(session.exchange),
    ensures
        ({
            let after = session.advance(readout);
            &&& after.next is Done && after.next->Done_0 is Err ==> after.session.state
                is Uninitialized && after.session.exchange is Idle
            &&& after.next is Done && after.next->Done_0 is Ok ==> after.session.state is Ready
                && after.session.exchange is Idle && session.exchange is SetBusWidth
            &&& after.next is Pending ==> after.session.state is Init1 && after.session.exchange
                is Idle && session.exchange is OperatingConditions
            &&& after.next is Await ==> in_bring_up(after.session.exchange)
        }),
{
}

/// A bring-up that has not ended leaves the card's relative address,
/// identification and capacity descriptor out of reach: the session is not
/// initialized while a command of the bring-up is in flight, nor after one
/// has failed.
pub proof fn lemma_bring_up_hides_card(session: Session, readout: Readout)
    requires
        session.wf(),
        in_bring_up(session.exchange),
    ensures
        !session.initialized(),
        !(session.advance(readout).next == Next::Done(Ok(()))) ==> !session.advance(
            readout,
        ).session.initialized(),
{
}

/// As long as the controller shows the command in flight as active, the
/// session waits: nothing changes, nothing is to be done, and the controller
/// is to be read again.
pub proof fn lemma_active_command_waits(session: Session, readout: Readout)
    requires
        is_command(session.exchange),
        readout.flags.command_active,
    ensures
        session.advance(readout) == session.wait(),
        session.wait().session == session,
        session.wait().actions.len() == 0,
        session.wait().next is Await,
{
}

/// A CRC failure of the response ends every command as `CRCFail`, with one
/// exception: the answer to `SD_SEND_OP_COND` carries no CRC, and there the
/// failure is the sign of an answer and never an error.
pub proof fn lemma_crc_failure(session: Session, readout: Readout)
    requires
        is_command(session.exchange),
        !readout.flags.command_active,
        readout.flags.command_crc_fail,
    ensures
        session.exchange is OperatingConditions ==> !(session.advance(readout).next is Done),
        !(session.exchange is OperatingConditions) ==> session.advance(readout).next == Next::Done(
            Err(Error::CRCFail),
        ),
{
}

/// The end of a transfer returns the session to `Ready` whatever the flags
/// say of its success, and a transfer that is still active leaves the state
/// as it was.
pub proof fn lemma_transfer_ends_ready(session: Session, readout: Readout)
    requires
        session.exchange is DataEnd,
    ensures
        ({
            let active = Session::transfer_active(session.exchange->direction, readout);
            let after = session.advance(readout);
            &&& active ==> after.next is Pending && after.session.state == session.state
            &&& !active ==> after.next is Done && after.session.state is Ready
            &&& after.session.exchange is Idle
        }),
{
}

} // verus!
