use vstd::prelude::*;

use crate::error::ErrorCode;
use crate::state::Contest;
use crate::state::ContestAccount;
use crate::state::Identity;

verus! {

/// The accounts a creation request runs against: the creator's identity and
/// the balance the record's storage reservation is funded from.
#[derive(Clone, Debug, PartialEq)]
pub struct CreateContest {
    pub signer: Identity,
    pub signer_lamports: u64,
}

/// A freshly created contest account: every field initialized from the
/// creation request, the counter at zero, no winner, no participants, and
/// exactly the storage reserve in the escrow.
pub open spec fn initialized(
    acc: ContestAccount,
    owner: Identity,
    name: String,
    description: String,
    ticket_price: u64,
    max_tickets: u8,
    bump: u8,
    reserve: u64,
) -> bool {
    &&& acc.data.owner == owner
    &&& acc.data.name@ == name@
    &&& acc.data.description@ == description@
    &&& acc.data.ticket_price == ticket_price
    &&& acc.data.max_tickets == max_tickets
    &&& acc.data.total_tickets_sold == 0
    &&& acc.data.winner is None
    &&& acc.data.participant@ == Seq::<Identity>::empty()
    &&& acc.data.bump == bump
    &&& acc.lamports == reserve
}

impl CreateContest {
    /// Open a new contest owned by `self.signer`.
    ///
    /// The host answers two questions the library cannot: whether a record
    /// already lives at the address derived from the owner's identity
    /// (`record_exists`) and the minimum balance the record's storage must
    /// retain (`reserve`). A duplicate record fails with `DuplicateRecord`;
    /// a creator who cannot fund the reserve fails with `TransferFailure`;
    /// otherwise the reserve moves from the creator into the new record's
    /// escrow and the record starts well-formed with no tickets sold.
    pub fn create_contest(
        &mut self,
        name: String,
        description: String,
        ticket_price: u64,
        max_tickets: u8,
        bump: u8,
        record_exists: bool,
        reserve: u64,
    ) -> (r: Result<ContestAccount, ErrorCode>)
        requires
            1 <= ticket_price,
            1 <= max_tickets,
        ensures
            final(self).signer == old(self).signer,
            record_exists ==> r == Err::<ContestAccount, ErrorCode>(ErrorCode::DuplicateRecord)
                && *final(self) == *old(self),
            !record_exists && old(self).signer_lamports < reserve ==> r == Err::<
                ContestAccount,
                ErrorCode,
            >(ErrorCode::TransferFailure) && *final(self) == *old(self),
            !record_exists && old(self).signer_lamports >= reserve ==> {
                &&& r matches Ok(acc)
                &&& initialized(
                    acc,
                    old(self).signer,
                    name,
                    description,
                    ticket_price,
                    max_tickets,
                    bump,
                    reserve,
                )
                &&& acc.data.wf()
                &&& acc.lamports as int + final(self).signer_lamports as int == old(
                    self,
                ).signer_lamports as int
            },
    {
        if record_exists {
            return Err(ErrorCode::DuplicateRecord);
        }
        if self.signer_lamports < reserve {
            return Err(ErrorCode::TransferFailure);
        }
        self.signer_lamports = self.signer_lamports - reserve;
        let contest = Contest {
            owner: self.signer,
            name,
            description,
            ticket_price,
            max_tickets,
            total_tickets_sold: 0,
            winner: None,
            participant: Vec::new(),
            bump,
        };
        Ok(ContestAccount { data: contest, lamports: reserve })
    }
}

} // verus!
