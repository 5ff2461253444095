use vstd::prelude::*;

verus! {

/// The error taxonomy of the contest library.
///
/// `TicketLimitReached` rejects a registration against a contest whose
/// ticket cap is already met or whose winner is already set.
/// `TransferFailure` stands for the host ledger refusing a balance transfer
/// (insufficient funds on the paying account). `DuplicateRecord` stands for
/// the host storage refusing to create a second contest record for the same
/// owner.
#[derive(Clone, Copy, Debug, PartialEq, Eq)]
pub enum ErrorCode {
    TicketLimitReached,
    TransferFailure,
    DuplicateRecord,
}

impl ErrorCode {
    /// The user-facing description of the error.
    pub fn message(&self) -> (s: &'static str)
        ensures
            *self == ErrorCode::TicketLimitReached ==> s@ == "Ticket limit reached"@,
            *self == ErrorCode::TransferFailure ==> s@ == "Transfer failure"@,
            *self == ErrorCode::DuplicateRecord ==> s@ == "Duplicate record"@,
    {
        match self {
            ErrorCode::TicketLimitReached => "Ticket limit reached",
            ErrorCode::TransferFailure => "Transfer failure",
            ErrorCode::DuplicateRecord => "Duplicate record",
        }
    }
}

} // verus!
