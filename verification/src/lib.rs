//! A raffle-style contest library.
//!
//! A creator opens a contest with a fixed ticket price and ticket cap;
//! participants buy tickets by paying into an escrow balance co-located with
//! the contest record; the buyer of the final ticket wins and receives the
//! accumulated escrow minus the host-mandated storage reserve. The host
//! ledger (account storage, balance custody, atomic transfer execution) is an
//! external collaborator: this library works on plain balances and
//! identities handed in by the dispatcher and states exactly how each
//! operation moves them.

use vstd::prelude::*;

pub mod close;
pub mod create_contest;
pub mod error;
pub mod register_contest;
pub mod state;

pub use crate::close::CloseContest;
pub use crate::create_contest::CreateContest;
pub use crate::error::ErrorCode;
pub use crate::register_contest::RegisterContest;
pub use crate::state::Contest;
pub use crate::state::ContestAccount;
pub use crate::state::Identity;

verus! {

/// Entry point for a creation request: forwards to
/// `CreateContest::create_contest` on the loaded accounts. `record_exists`
/// and `reserve` are the host's answers to the derived-address lookup and
/// the minimum-balance query for the new record's storage.
pub fn create_contest(
    accounts: &mut CreateContest,
    name: String,
    description: String,
    ticket_price: u64,
    max_tickets: u8,
    bump: u8,
    record_exists: bool,
    reserve: u64,
) -> (r: Result<ContestAccount, ErrorCode>)
    requires
        1 <= ticket_price,
        1 <= max_tickets,
    ensures
        final(accounts).signer == old(accounts).signer,
        record_exists ==> r == Err::<ContestAccount, ErrorCode>(ErrorCode::DuplicateRecord)
            && *final(accounts) == *old(accounts),
        !record_exists && old(accounts).signer_lamports < reserve ==> r == Err::<
            ContestAccount,
            ErrorCode,
        >(ErrorCode::TransferFailure) && *final(accounts) == *old(accounts),
        !record_exists && old(accounts).signer_lamports >= reserve ==> {
            &&& r matches Ok(acc)
            &&& crate::create_contest::initialized(
                acc,
                old(accounts).signer,
                name,
                description,
                ticket_price,
                max_tickets,
                bump,
                reserve,
            )
            &&& acc.data.wf()
            &&& acc.lamports as int + final(accounts).signer_lamports as int == old(
                accounts,
            ).signer_lamports as int
        },
{
    accounts.create_contest(name, description, ticket_price, max_tickets, bump, record_exists, reserve)
}

/// Entry point for a registration request: forwards to
/// `RegisterContest::register_contest` on the loaded accounts. `reserve` is
/// the host's answer to the minimum-balance query for the record's storage
/// footprint.
pub fn register_contest(accounts: &mut RegisterContest, reserve: u64) -> (r: Result<
    (),
    ErrorCode,
>)
    requires
        old(accounts).contest.data.wf(),
        old(accounts).contest.lamports + old(accounts).signer_lamports <= u64::MAX,
    ensures
        crate::register_contest::register_spec(*old(accounts), *final(accounts), reserve, r),
        final(accounts).contest.data.wf(),
        final(accounts).total_lamports() == old(accounts).total_lamports(),
{
    accounts.register_contest(reserve)
}

} // verus!
