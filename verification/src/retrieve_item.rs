use vstd::prelude::*;
use crate::AccountId;
use crate::error::LootboxError;
use crate::state::UserState;

verus! {

/// An order to the external token program to mint `amount` units of `mint`
/// to the token account `to`, signed by the program-wide mint authority: a
/// program-derived address over a fixed seed whose discriminant is
/// `authority_bump`.
#[derive(Clone, Copy, PartialEq, Eq, Structural, Debug)]
pub struct MintOrder {
    pub mint: AccountId,
    pub to: AccountId,
    /// Bump discriminant of the fixed-seed mint authority.
    pub authority_bump: u8,
    pub amount: u64,
}

/// The accounts a redemption transaction operates on, as the plain values
/// this program reads of them.
#[derive(Clone, Copy, PartialEq, Eq, Structural, Debug)]
pub struct RetrieveItem {
    /// The calling user, who signed the transaction.
    pub user: AccountId,
    /// The reward token type to mint.
    pub mint: AccountId,
    /// The user's redemption record.
    pub state: UserState,
    /// The user's token account for the reward, created on demand.
    pub user_gear_ata: AccountId,
    /// Bump discriminant of the program-wide mint authority, recomputed by
    /// the runtime from the fixed seed.
    pub mint_authority_bump: u8,
}

impl RetrieveItem {
    /// What the runtime's account resolution establishes before the
    /// instruction body runs: the supplied mint is the reward token type
    /// bound to the user's record.
    pub open spec fn accounts_resolved(self) -> bool {
        self.state.mint == self.mint
    }

    /// Redemption is permitted exactly while the record is redeemable: a
    /// request has been issued and not yet consumed. The flag is the sole
    /// guard; whether the oracle has overwritten the pending result is not
    /// consulted.
    pub open spec fn redeem_allowed(self) -> bool {
        self.state.redeemable
    }

    /// The accounts after a successful redemption: only the redeemable flag
    /// is cleared. The claim ledger slot is not touched by redemption.
    pub open spec fn redeem_post(self) -> RetrieveItem {
        RetrieveItem { state: (UserState { redeemable: false, ..self.state }), ..self }
    }

    /// The order issued by a successful redemption: exactly one unit of the
    /// reward token, minted to the user under the fixed-seed authority.
    pub open spec fn mint_order(self) -> MintOrder {
        MintOrder {
            mint: self.mint,
            to: self.user_gear_ata,
            authority_bump: self.mint_authority_bump,
            amount: 1,
        }
    }

    /// Redeems the currently opened container.
    ///
    /// Permitted exactly when `redeemable` is set; a never-opened or already
    /// redeemed record is refused with `MintNotReady`, the sole guard against
    /// double-minting. On success, returns the order to mint exactly one
    /// reward token to the user, and clears `redeemable` so that a second
    /// attempt is refused. As with opening, the runtime persists the cleared
    /// flag only if the mint itself succeeds.
    pub fn process_instruction(&mut self) -> (r: Result<MintOrder, LootboxError>)
        requires
            old(self).accounts_resolved(),
        ensures
            r is Ok <==> old(self).redeem_allowed(),
            r matches Err(e) ==> e == LootboxError::MintNotReady && *final(self) == *old(self),
            r matches Ok(m) ==> m == old(self).mint_order() && *final(self) == old(
                self,
            ).redeem_post(),
    {
        if !self.state.redeemable {
            return Err(LootboxError::MintNotReady);
        }

        let order = MintOrder {
            mint: self.mint,
            to: self.user_gear_ata,
            authority_bump: self.mint_authority_bump,
            amount: 1,
        };

        self.state.redeemable = false;

        Ok(order)
    }
}

} // verus!
