use vstd::prelude::*;

verus! {

/// Every way an open or a redemption can be refused.
#[derive(Clone, Copy, PartialEq, Eq, Structural, Debug)]
pub enum LootboxError {
    /// The requested tier is not on the doubling progression, the user's
    /// earned credit does not cover it, or an earlier open is still
    /// unclaimed on the user's ledger slot.
    InvalidLootbox,
    /// The randomness-request account supplied is not the one bound to the
    /// user's redemption record.
    InvalidVrfAccount,
    /// Redemption was attempted while the record is not redeemable: either
    /// no request was ever issued, or the reward was already redeemed.
    MintNotReady,
}

} // verus!
