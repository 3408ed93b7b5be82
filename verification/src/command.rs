use vstd::prelude::*;

verus! {

/// The card commands the host issues. The wire index of each is fixed by the
/// SD protocol and given by [`Command::index`].
#[derive(Copy, Clone, Debug, PartialEq, Eq)]
#[allow(non_camel_case_types)]
pub enum Command {
    GO_IDLE_STATE,
    ALL_SEND_CID,
    SEND_RELATIVE_ADDR,
    SELECT_CARD,
    SEND_IF_COND,
    SEND_CSD,
    SEND_CID,
    SEND_STATUS,
    READ_BLOCK,
    READ_MULTIPLE_BLOCK,
    SET_BLOCK_COUNT,
    WRITE_BLOCK,
    WRITE_MULTIPLE_BLOCK,
    ERASE_WR_BLK_START,
    ERASE_WR_BLK_END,
    ERASE,
    APP_COMMAND,
}

/// The application commands the host issues, each after an `APP_COMMAND`.
#[derive(Copy, Clone, Debug, PartialEq, Eq)]
#[allow(non_camel_case_types)]
pub enum AppCommand {
    SET_BUS_WIDTH,
    SD_STATUS,
    SET_WR_BLK_ERASE_COUNT,
    SD_SEND_OP_COND,
}

/// How long a response the controller is told to wait for.
#[derive(Copy, Clone, Debug, PartialEq, Eq)]
pub enum ResponseKind {
    /// The command has no response.
    Silent,
    /// A 48-bit response: one word and the echoed command index.
    Short,
    /// A 136-bit response: four words.
    Long,
}

impl Command {
    /// The command's index on the wire.
    pub open spec fn index(self) -> u8 {
        match self {
            Command::GO_IDLE_STATE => 0,
            Command::ALL_SEND_CID => 2,
            Command::SEND_RELATIVE_ADDR => 3,
            Command::SELECT_CARD => 7,
            Command::SEND_IF_COND => 8,
            Command::SEND_CSD => 9,
            Command::SEND_CID => 10,
            Command::SEND_STATUS => 13,
            Command::READ_BLOCK => 17,
            Command::READ_MULTIPLE_BLOCK => 18,
            Command::SET_BLOCK_COUNT => 23,
            Command::WRITE_BLOCK => 24,
            Command::WRITE_MULTIPLE_BLOCK => 25,
            Command::ERASE_WR_BLK_START => 32,
            Command::ERASE_WR_BLK_END => 33,
            Command::ERASE => 38,
            Command::APP_COMMAND => 55,
        }
    }

    /// The command's index on the wire.
    pub fn code(self) -> (code: u8)
        ensures
            code == self.index(),
    {
        match self {
            Command::GO_IDLE_STATE => 0,
            Command::ALL_SEND_CID => 2,
            Command::SEND_RELATIVE_ADDR => 3,
            Command::SELECT_CARD => 7,
            Command::SEND_IF_COND => 8,
            Command::SEND_CSD => 9,
            Command::SEND_CID => 10,
            Command::SEND_STATUS => 13,
            Command::READ_BLOCK => 17,
            Command::READ_MULTIPLE_BLOCK => 18,
            Command::SET_BLOCK_COUNT => 23,
            Command::WRITE_BLOCK => 24,
            Command::WRITE_MULTIPLE_BLOCK => 25,
            Command::ERASE_WR_BLK_START => 32,
            Command::ERASE_WR_BLK_END => 33,
            Command::ERASE => 38,
            Command::APP_COMMAND => 55,
        }
    }
}

impl AppCommand {
    /// The application command's index on the wire.
    pub open spec fn index(self) -> u8 {
        match self {
            AppCommand::SET_BUS_WIDTH => 6,
            AppCommand::SD_STATUS => 13,
            AppCommand::SET_WR_BLK_ERASE_COUNT => 23,
            AppCommand::SD_SEND_OP_COND => 41,
        }
    }

    /// The application command's index on the wire.
    pub fn code(self) -> (code: u8)
        ensures
            code == self.index(),
    {
        match self {
            AppCommand::SET_BUS_WIDTH => 6,
            AppCommand::SD_STATUS => 13,
            AppCommand::SET_WR_BLK_ERASE_COUNT => 23,
            AppCommand::SD_SEND_OP_COND => 41,
        }
    }
}

impl ResponseKind {
    /// The value of the controller's wait-for-response field.
    pub open spec fn wait_field(self) -> u8 {
        match self {
            ResponseKind::Silent => 0,
            ResponseKind::Short => 1,
            ResponseKind::Long => 3,
        }
    }

    /// The value to write to the controller's wait-for-response field.
    pub fn wait_bits(self) -> (bits: u8)
        ensures
            bits == self.wait_field(),
    {
        match self {
            ResponseKind::Silent => 0,
            ResponseKind::Short => 1,
            ResponseKind::Long => 3,
        }
    }

    /// Whether the controller is to wait for any response.
    pub open spec fn expected(self) -> bool {
        self != ResponseKind::Silent
    }

    /// Whether the controller is to wait for any response.
    pub fn expects_response(self) -> (expects: bool)
        ensures
            expects == self.expected(),
    {
        match self {
            ResponseKind::Silent => false,
            _ => true,
        }
    }
}

} // verus!
