use vstd::prelude::*;

use crate::error::ErrorCode;
use crate::state::ContestAccount;
use crate::state::Identity;

verus! {

/// The settlement payout: everything in the escrow above the reserve,
/// saturating at zero. Never negative and never more than the escrow.
pub open spec fn payout_amount(escrow: int, reserve: int) -> int {
    if escrow >= reserve {
        escrow - reserve
    } else {
        0
    }
}

/// Payout bound: the settlement payout is never negative, never exceeds the
/// escrow balance it is paid out of, and equals the escrow minus the reserve
/// whenever the escrow covers the reserve.
pub proof fn lemma_payout_bound(escrow: u64, reserve: u64)
    ensures
        0 <= payout_amount(escrow as int, reserve as int),
        payout_amount(escrow as int, reserve as int) <= escrow as int,
        escrow >= reserve ==> payout_amount(escrow as int, reserve as int) == escrow - reserve,
{
}

/// The host ledger's atomic transfer capability, modeled on plain balances:
/// moves `amount` from `from` to `to`, or fails leaving both untouched. It
/// fails exactly when the paying balance cannot cover the amount or the
/// receiving balance would not fit the ledger's balance type.
pub fn transfer(from: &mut u64, to: &mut u64, amount: u64) -> (r: Result<(), ErrorCode>)
    ensures
        r is Ok <==> *old(from) >= amount && *old(to) + amount <= u64::MAX,
        r is Ok ==> *final(from) == *old(from) - amount && *final(to) == *old(to) + amount,
        r is Err ==> *final(from) == *old(from) && *final(to) == *old(to) && r == Err::<
            (),
            ErrorCode,
        >(ErrorCode::TransferFailure),
{
    if amount > *from {
        return Err(ErrorCode::TransferFailure);
    }
    if *to > u64::MAX - amount {
        return Err(ErrorCode::TransferFailure);
    }
    *from = *from - amount;
    *to = *to + amount;
    Ok(())
}

/// The accounts a registration request runs against: the contest record with
/// its escrow balance, and the buyer's identity with the balance the ticket
/// is paid from.
#[derive(Clone, Debug, PartialEq)]
pub struct RegisterContest {
    pub contest: ContestAccount,
    pub signer: Identity,
    pub signer_lamports: u64,
}

impl RegisterContest {
    /// Everything the two accounts hold together; registrations move funds
    /// between buyer and escrow but never create or destroy any.
    pub open spec fn total_lamports(self) -> int {
        self.contest.lamports as int + self.signer_lamports as int
    }
}

/// The registration transition: how `register_contest` takes the accounts
/// from `pre` to `post` and what it returns, given the reserve the host
/// demands for the record's storage.
///
/// A closed gate (cap met or winner set) fails with `TicketLimitReached` and
/// changes nothing. An uncovered ticket price fails with `TransferFailure`
/// and changes nothing. Otherwise the price moves from the buyer to the
/// escrow, the counter and the participant list advance by this buyer, and
/// the registration that reaches the cap additionally names this buyer the
/// winner and pays the escrow above the reserve back out to them, all in the
/// same transition.
pub open spec fn register_spec(
    pre: RegisterContest,
    post: RegisterContest,
    reserve: u64,
    r: Result<(), ErrorCode>,
) -> bool {
    let c = pre.contest.data;
    let price = c.ticket_price as int;
    let escrow = pre.contest.lamports as int + price;
    let sold = c.total_tickets_sold as int + 1;
    let pay = payout_amount(escrow, reserve as int);
    if c.sold_out() {
        &&& r == Err::<(), ErrorCode>(ErrorCode::TicketLimitReached)
        &&& post == pre
    } else if pre.signer_lamports < c.ticket_price {
        &&& r == Err::<(), ErrorCode>(ErrorCode::TransferFailure)
        &&& post == pre
    } else {
        &&& r is Ok
        &&& post.signer == pre.signer
        &&& c.config_unchanged(post.contest.data)
        &&& post.contest.data.total_tickets_sold as int == sold
        &&& post.contest.data.participant@ == c.participant@.push(pre.signer)
        &&& if sold == c.max_tickets as int {
            &&& post.contest.data.winner == Some(pre.signer)
            &&& post.contest.lamports as int == escrow - pay
            &&& post.signer_lamports as int == pre.signer_lamports - price + pay
        } else {
            &&& post.contest.data.winner == c.winner
            &&& post.contest.lamports as int == escrow
            &&& post.signer_lamports as int == pre.signer_lamports - price
        }
    }
}

/// Record invariants are preserved: any registration transition out of a
/// well-formed record leaves a well-formed record, so for every reachable
/// state the participant list has one entry per ticket sold, the counter
/// never passes the cap, and the winner is set exactly when the counter
/// meets the cap.
pub proof fn lemma_register_preserves_invariants(
    pre: RegisterContest,
    post: RegisterContest,
    reserve: u64,
    r: Result<(), ErrorCode>,
)
    requires
        pre.contest.data.wf(),
        register_spec(pre, post, reserve, r),
    ensures
        post.contest.data.wf(),
        post.contest.data.participant@.len() == post.contest.data.total_tickets_sold as int,
        post.contest.data.total_tickets_sold <= post.contest.data.max_tickets,
        post.contest.data.winner is Some <==> post.contest.data.total_tickets_sold
            == post.contest.data.max_tickets,
{
}

/// Escrow custody: a registration never takes the escrow below the
/// host-mandated reserve. Below the cap the escrow only grows; the
/// settlement pays out no more than the part above the reserve.
pub proof fn lemma_escrow_covers_reserve(
    pre: RegisterContest,
    post: RegisterContest,
    reserve: u64,
    r: Result<(), ErrorCode>,
)
    requires
        pre.contest.lamports >= reserve,
        register_spec(pre, post, reserve, r),
    ensures
        post.contest.lamports >= reserve,
{
}

/// Gate correctness: once the counter has reached the cap, any further
/// registration fails with `TicketLimitReached` and leaves every account,
/// record, escrow and buyer balance, exactly as it was: no state change
/// and no transfer.
pub proof fn lemma_gate_correct(
    pre: RegisterContest,
    post: RegisterContest,
    reserve: u64,
    r: Result<(), ErrorCode>,
)
    requires
        pre.contest.data.total_tickets_sold == pre.contest.data.max_tickets,
        register_spec(pre, post, reserve, r),
    ensures
        r == Err::<(), ErrorCode>(ErrorCode::TicketLimitReached),
        post == pre,
{
}

/// Settlement atomicity: the registration that brings the counter to the
/// cap both names that buyer the winner and pays out the escrow above the
/// reserve to them, within the same transition; whenever the escrow covers
/// the reserve, exactly the reserve is left behind.
pub proof fn lemma_settlement_atomic(
    pre: RegisterContest,
    post: RegisterContest,
    reserve: u64,
    r: Result<(), ErrorCode>,
)
    requires
        pre.contest.data.wf(),
        !pre.contest.data.sold_out(),
        pre.signer_lamports >= pre.contest.data.ticket_price,
        pre.contest.data.total_tickets_sold as int + 1 == pre.contest.data.max_tickets as int,
        register_spec(pre, post, reserve, r),
    ensures
        r is Ok,
        post.contest.data.winner == Some(pre.signer),
        post.contest.lamports as int == pre.contest.lamports + pre.contest.data.ticket_price
            - payout_amount(
            pre.contest.lamports + pre.contest.data.ticket_price,
            reserve as int,
        ),
        post.signer_lamports as int == pre.signer_lamports - pre.contest.data.ticket_price
            + payout_amount(pre.contest.lamports + pre.contest.data.ticket_price, reserve as int),
        pre.contest.lamports + pre.contest.data.ticket_price >= reserve ==> post.contest.lamports
            == reserve,
{
}

impl RegisterContest {
    /// Sell one ticket to `self.signer`: the core state transition.
    ///
    /// The buyer pays `ticket_price` into the escrow, the counter and the
    /// participant list advance, and the purchase of the final ticket
    /// settles the contest: the buyer becomes the winner and receives the
    /// escrow minus the host's `reserve` for the record's storage, leaving
    /// exactly the reserve behind. A closed gate or an uncovered price
    /// fails with no state change at all.
    ///
    /// The host ledger keeps its total supply within the balance type, so
    /// the two balances a request touches always sum within `u64`.
    pub fn register_contest(&mut self, reserve: u64) -> (r: Result<(), ErrorCode>)
        requires
            old(self).contest.data.wf(),
            old(self).contest.lamports + old(self).signer_lamports <= u64::MAX,
        ensures
            register_spec(*old(self), *final(self), reserve, r),
            final(self).contest.data.wf(),
            final(self).total_lamports() == old(self).total_lamports(),
    {
        if self.contest.data.total_tickets_sold >= self.contest.data.max_tickets
            || self.contest.data.winner.is_some() {
            return Err(ErrorCode::TicketLimitReached);
        }
        let amount = self.contest.data.ticket_price;
        match transfer(&mut self.signer_lamports, &mut self.contest.lamports, amount) {
            Ok(_) => {},
            Err(e) => {
                return Err(e);
            },
        }
        self.contest.data.total_tickets_sold = self.contest.data.total_tickets_sold + 1;
        self.contest.data.participant.push(self.signer);
        if self.contest.data.total_tickets_sold == self.contest.data.max_tickets {
            let lamports = self.contest.lamports;
            let real_lamports = if lamports >= reserve {
                lamports - reserve
            } else {
                0
            };
            self.contest.data.winner = Some(self.signer);
            self.contest.lamports = self.contest.lamports - real_lamports;
            self.signer_lamports = self.signer_lamports + real_lamports;
        }
        Ok(())
    }
}

} // verus!
