use vstd::prelude::*;
use crate::AccountId;

verus! {

/// Per-user redemption record, persisted between the two transactions of a
/// container cycle. Its address is program-derived from the user's identity;
/// `bump` is the discriminant proving that derivation.
#[derive(Clone, Copy, PartialEq, Eq, Structural, Debug)]
pub struct UserState {
    /// Bump discriminant of this record's program-derived address; the
    /// record signs the randomness request for itself with it.
    pub bump: u8,
    /// Bump discriminant of the oracle network's global state account.
    pub switchboard_state_bump: u8,
    /// Bump discriminant of the oracle permission account.
    pub vrf_permission_bump: u8,
    /// The oracle randomness-request account this user is bound to.
    pub vrf: AccountId,
    /// The token type minted to the user on redemption.
    pub mint: AccountId,
    /// Last raw randomness value; zero until the oracle network fulfills
    /// the outstanding request.
    pub result: u64,
    /// True once a randomness request has been issued and not yet consumed
    /// by a redemption: the logical lock against double-minting.
    pub redeemable: bool,
}

impl UserState {
    /// Records the oracle network's callback write of the fulfilled random
    /// value. On the ledger this write is performed by the oracle program in
    /// a later transaction, never by this program; it is offered here so a
    /// whole open / fulfill / redeem cycle can be driven and exercised.
    pub fn fulfill(&mut self, value: u64)
        ensures
            *final(self) == (UserState { result: value, ..*old(self) }),
    {
        self.result = value;
    }
}

/// Per-user claim ledger slot, created on the first open and reused for
/// later containers: tracks whether the currently opened container has been
/// initialized and whether it has been claimed.
#[derive(Clone, Copy, PartialEq, Eq, Structural, Debug)]
pub struct LootboxPointer {
    /// True once a request has ever been issued for the tracked container.
    pub is_initialized: bool,
    /// True once the tracked container's reward has been claimed.
    pub claimed: bool,
}

/// Read-only eligibility record owned by the external staking subsystem:
/// the credit a user has accumulated, consumed here to gate container tiers.
#[derive(Clone, Copy, PartialEq, Eq, Structural, Debug)]
pub struct UserStakeInfo {
    /// The user this record belongs to.
    pub user_pubkey: AccountId,
    /// Monotonically accumulated credit; a tier `n` needs at least `n`.
    pub total_earned: u64,
}

} // verus!
