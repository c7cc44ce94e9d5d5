//! The errors the raffle's instructions answer with.
use vstd::prelude::*;

verus! {

/// Why an instruction was refused. Each variant has a fixed number, its
/// `code`, starting at 6000 in the order below.
#[derive(Clone, Copy, Debug, PartialEq, Eq, Structural)]
pub enum ErrorCode {
    /// 6000. The end date is in the past.
    ExpireDateInThePast,
    /// 6001. The start date is in the past.
    StartDateInThePast,
    /// 6002. The lottery is not in the state the instruction needs.
    InvalidLotteryStatus,
    /// 6003. The lottery is closed.
    LotteryIsClosed,
    /// 6004. The lottery has not started.
    LotteryIsNotStarted,
    /// 6005. The lottery is not open.
    LotteryNotOpen,
    /// 6006. The ticket is not the winning ticket.
    InvalidTicket,
    /// 6007. There is no ticket in the account.
    NoTicket,
    /// 6008. The signer does not own the ticket.
    NotOwner,
    /// 6009. The lottery's end date has not passed.
    LotteryNotEnded,
}

/// The number of the first error code.
pub const ERROR_CODE_OFFSET: u32 = 6000;

/// The position of an error in the declaration order.
pub open spec fn error_index(e: ErrorCode) -> nat {
    match e {
        ErrorCode::ExpireDateInThePast => 0,
        ErrorCode::StartDateInThePast => 1,
        ErrorCode::InvalidLotteryStatus => 2,
        ErrorCode::LotteryIsClosed => 3,
        ErrorCode::LotteryIsNotStarted => 4,
        ErrorCode::LotteryNotOpen => 5,
        ErrorCode::InvalidTicket => 6,
        ErrorCode::NoTicket => 7,
        ErrorCode::NotOwner => 8,
        ErrorCode::LotteryNotEnded => 9,
    }
}

impl ErrorCode {
    /// The error's number: 6000 plus its position in the declaration.
    pub fn code(&self) -> (c: u32)
        ensures
            c == ERROR_CODE_OFFSET + error_index(*self),
    {
        match self {
            ErrorCode::ExpireDateInThePast => 6000,
            ErrorCode::StartDateInThePast => 6001,
            ErrorCode::InvalidLotteryStatus => 6002,
            ErrorCode::LotteryIsClosed => 6003,
            ErrorCode::LotteryIsNotStarted => 6004,
            ErrorCode::LotteryNotOpen => 6005,
            ErrorCode::InvalidTicket => 6006,
            ErrorCode::NoTicket => 6007,
            ErrorCode::NotOwner => 6008,
            ErrorCode::LotteryNotEnded => 6009,
        }
    }
}

/// Distinct errors have distinct codes.
pub proof fn lemma_codes_distinct(a: ErrorCode, b: ErrorCode)
    requires
        a != b,
    ensures
        ERROR_CODE_OFFSET + error_index(a) != ERROR_CODE_OFFSET + error_index(b),
{
}

} // verus!
