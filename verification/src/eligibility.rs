use vstd::prelude::*;
use crate::error::LootboxError;

verus! {

/// The tier unlocked after `k` doublings: 10, 20, 40, 80, 160, and so on.
pub open spec fn tier_amount(k: nat) -> nat
    decreases k,
{
    if k == 0 {
        10
    } else {
        2 * tier_amount((k - 1) as nat)
    }
}

/// A container tier is valid exactly when repeated doubling from 10 lands
/// on it; overshooting without an exact match is invalid.
pub open spec fn is_valid_tier(box_number: u64) -> bool {
    exists|k: nat| box_number as nat == tier_amount(k)
}

/// A user may open tier `box_number` when the tier is valid and their
/// accumulated credit covers it.
pub open spec fn is_eligible(box_number: u64, total_earned: u64) -> bool {
    is_valid_tier(box_number) && total_earned >= box_number
}

pub proof fn lemma_tier_amount_at_least_ten(k: nat)
    ensures
        tier_amount(k) >= 10,
    decreases k,
{
    if k > 0 {
        lemma_tier_amount_at_least_ten((k - 1) as nat);
    }
}

/// The tier progression is strictly increasing in the number of doublings.
pub proof fn lemma_tier_amount_strictly_increasing(j: nat, k: nat)
    requires
        j < k,
    ensures
        tier_amount(j) < tier_amount(k),
    decreases k,
{
    lemma_tier_amount_at_least_ten((k - 1) as nat);
    if j < k - 1 {
        lemma_tier_amount_strictly_increasing(j, (k - 1) as nat);
    }
}

/// Decides whether the user qualifies to open the requested container tier:
/// the tier must lie on the doubling progression from 10 and the user's
/// accumulated credit must reach it. Either failure is `InvalidLootbox`.
pub fn check_eligibility(box_number: u64, total_earned: u64) -> (r: Result<(), LootboxError>)
    ensures
        r is Ok <==> is_eligible(box_number, total_earned),
        r matches Err(e) ==> e == LootboxError::InvalidLootbox,
{
    let mut loot_box: u64 = 10;
    let ghost mut i: nat = 0;
    loop
        invariant
            loot_box == tier_amount(i),
            loot_box >= 10,
            forall|j: nat| j < i ==> tier_amount(j) < box_number,
        decreases u64::MAX - loot_box,
    {
        if loot_box > box_number {
            proof {
                assert forall|k: nat| #[trigger] tier_amount(k) != box_number as nat by {
                    if k > i {
                        lemma_tier_amount_strictly_increasing(i, k);
                    }
                }
            }
            return Err(LootboxError::InvalidLootbox);
        }
        if loot_box == box_number {
            proof {
                assert(box_number as nat == tier_amount(i));
            }
            if total_earned >= box_number {
                return Ok(());
            } else {
                return Err(LootboxError::InvalidLootbox);
            }
        }
        // The next doubling would overflow, so every remaining tier exceeds
        // any representable request: no tier matches.
        if loot_box > u64::MAX / 2 {
            proof {
                assert forall|k: nat| #[trigger] tier_amount(k) != box_number as nat by {
                    if k > i {
                        assert(tier_amount((i + 1) as nat) == 2 * tier_amount(i));
                        if k > i + 1 {
                            lemma_tier_amount_strictly_increasing((i + 1) as nat, k);
                        }
                    }
                }
            }
            return Err(LootboxError::InvalidLootbox);
        }
        loot_box = loot_box * 2;
        proof {
            i = i + 1;
        }
    }
}

} // verus!
