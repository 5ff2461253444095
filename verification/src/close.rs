use vstd::prelude::*;

use crate::error::ErrorCode;
use crate::state::ContestAccount;
use crate::state::Identity;

verus! {

/// The accounts a close request runs against: the contest account to be
/// deleted (present until the close runs) and the closer's identity and
/// balance. The host's address derivation guarantees that only the
/// creation-time owner reaches their record, so the owner check is a
/// precondition here rather than a runtime branch.
#[derive(Clone, Debug, PartialEq)]
pub struct CloseContest {
    pub contest: Option<ContestAccount>,
    pub signer: Identity,
    pub signer_lamports: u64,
}

impl CloseContest {
    /// Delete the contest record and refund its entire remaining balance,
    /// escrow and storage reserve alike, to the closer. Closing is
    /// unconditional on contest state: a sold-out contest and one still
    /// mid-sale are both closeable by the owner, and no refunds go to
    /// participants. The host ledger keeps its total supply within the
    /// balance type, so the refund always fits the closer's balance.
    pub fn close_contest(&mut self) -> (r: Result<(), ErrorCode>)
        requires
            old(self).contest matches Some(acc) && acc.data.owner == old(self).signer,
            old(self).contest matches Some(acc) ==> acc.lamports + old(self).signer_lamports
                <= u64::MAX,
        ensures
            r is Ok,
            final(self).contest is None,
            final(self).signer == old(self).signer,
            old(self).contest matches Some(acc) ==> final(self).signer_lamports as int == old(
                self,
            ).signer_lamports as int + acc.lamports as int,
    {
        let refund = match &self.contest {
            Some(acc) => acc.lamports,
            None => 0,
        };
        self.signer_lamports = self.signer_lamports + refund;
        self.contest = None;
        Ok(())
    }
}

} // verus!
