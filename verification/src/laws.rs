use vstd::prelude::*;
use crate::error::LootboxError;
use crate::open_lootbox::OpenLootbox;
use crate::retrieve_item::RetrieveItem;
use crate::state::UserState;

verus! {

/// Opening a second container before the first is redeemed is refused, and
/// with `InvalidLootbox`: a successful open leaves the ledger slot
/// initialized and unclaimed, so the ledger guard rejects every further
/// tier, while the record's randomness binding stays intact.
pub proof fn lemma_second_open_refused(accounts: OpenLootbox, first_tier: u64, second_tier: u64)
    requires
        accounts.open_allowed(first_tier),
    ensures
        !accounts.open_post().open_allowed(second_tier),
        accounts.open_post().open_error() == LootboxError::InvalidLootbox,
{
}

/// A successful open leaves the record redeemable with a cleared pending
/// result, so a redemption attempted at that exact point is permitted even
/// though no oracle fulfillment has occurred -- redemption is gated on the
/// flag alone. The redemption clears the flag, and a second redemption of
/// the same record is refused.
pub proof fn lemma_open_then_redeem(accounts: OpenLootbox, box_number: u64, redeem: RetrieveItem)
    requires
        accounts.open_allowed(box_number),
        redeem.state == accounts.open_post().state,
    ensures
        accounts.open_post().state.redeemable,
        accounts.open_post().state.result == 0,
        redeem.redeem_allowed(),
        !redeem.redeem_post().redeem_allowed(),
        !redeem.redeem_post().state.redeemable,
{
}

/// Round trip: open, oracle fulfillment with any value, then one redemption.
/// The redemption is permitted and mints exactly one reward unit; afterwards
/// the record is no longer redeemable, so no further redemption is possible
/// until the next open, and the ledger slot still shows the container as
/// initialized and unclaimed: redemption leaves the slot as it found it.
pub proof fn lemma_round_trip(
    accounts: OpenLootbox,
    box_number: u64,
    oracle_value: u64,
    redeem: RetrieveItem,
)
    requires
        accounts.open_allowed(box_number),
        redeem.state == (UserState { result: oracle_value, ..accounts.open_post().state }),
    ensures
        redeem.redeem_allowed(),
        redeem.mint_order().amount == 1,
        !redeem.redeem_post().redeem_allowed(),
        !redeem.redeem_post().state.redeemable,
        accounts.open_post().lootbox_pointer.is_initialized,
        !accounts.open_post().lootbox_pointer.claimed,
{
}

} // verus!
