use vstd::prelude::*;

verus! {

/// An account identity on the host ledger: a 32-byte public key, held as
/// plain bytes so that the library can store and compare identities without
/// touching the host's key machinery.
#[derive(Clone, Copy, Debug, PartialEq, Eq)]
pub struct Identity {
    pub bytes: [u8; 32],
}

/// The contest ledger record: one raffle instance's configuration and
/// running ticket-sale state. `owner`, `name`, `description`,
/// `ticket_price`, `max_tickets` and `bump` are set once at creation and
/// immutable thereafter; `total_tickets_sold`, `participant` and `winner`
/// advance only through `RegisterContest::register_contest`.
#[derive(Clone, Debug, PartialEq)]
pub struct Contest {
    pub owner: Identity,
    pub name: String,
    pub description: String,
    pub ticket_price: u64,
    pub max_tickets: u8,
    pub total_tickets_sold: u8,
    pub winner: Option<Identity>,
    pub participant: Vec<Identity>,
    /// Derivation seed for the record's storage address; opaque to the
    /// contest rules, kept only so the host can recompute the address.
    pub bump: u8,
}

impl Contest {
    /// The record invariant: one participant entry per ticket sold, the
    /// counter never passes the cap, price and cap are positive, and the
    /// winner is set exactly when the cap is reached.
    pub open spec fn wf(self) -> bool {
        &&& 1 <= self.ticket_price
        &&& 1 <= self.max_tickets
        &&& self.participant@.len() == self.total_tickets_sold as int
        &&& self.total_tickets_sold <= self.max_tickets
        &&& (self.winner is Some <==> self.total_tickets_sold == self.max_tickets)
    }

    /// The registration gate: no further tickets may be sold. The two
    /// conditions coincide on well-formed records but are checked
    /// independently for defense in depth.
    pub open spec fn sold_out(self) -> bool {
        self.total_tickets_sold >= self.max_tickets || self.winner is Some
    }

    /// The configuration fields that no operation after creation may touch.
    pub open spec fn config_unchanged(self, post: Contest) -> bool {
        &&& post.owner == self.owner
        &&& post.name@ == self.name@
        &&& post.description@ == self.description@
        &&& post.ticket_price == self.ticket_price
        &&& post.max_tickets == self.max_tickets
        &&& post.bump == self.bump
    }
}

/// A contest record together with the balance the host ledger holds under
/// the record's storage address: the escrow that ticket payments accumulate
/// into and the settlement pays out of.
#[derive(Clone, Debug, PartialEq)]
pub struct ContestAccount {
    pub data: Contest,
    pub lamports: u64,
}

/// The serialized size, in bytes, of a contest record sized to hold
/// `max_tickets` participant entries: an 8-byte record tag, the 32-byte
/// owner identity, 20 bytes reserved for the name and 60 for the
/// description, the 8-byte price, the two 1-byte counters, 1 + 32 bytes for
/// the optional winner, 4 + 32 * `max_tickets` bytes for the participant
/// list, and the 1-byte derivation seed. The footprint is fixed once
/// `max_tickets` is chosen; the host's minimum reserve for the record is a
/// function of this size.
pub fn record_space(max_tickets: u8) -> (space: usize)
    ensures
        space == 168 + 32 * (max_tickets as int),
{
    8 + 32 + 20 + 60 + 8 + 1 + 1 + (1 + 32) + (4 + 32 * (max_tickets as usize)) + 1
}

} // verus!
