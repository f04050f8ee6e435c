use vstd::prelude::*;
use crate::AccountId;
use crate::error::LootboxError;
use crate::eligibility::{check_eligibility, is_eligible};
use crate::state::{LootboxPointer, UserStakeInfo, UserState};

verus! {

/// A program-derived signing capability: the program signs on behalf of the
/// deterministic address derived from `seed` by presenting the seed together
/// with the verified `bump` discriminant; no private key exists for it.
#[derive(Clone, Copy, PartialEq, Eq, Structural, Debug)]
pub struct SigningAuthority {
    /// The identity the address was derived from.
    pub seed: AccountId,
    /// The numeric discriminant completing the derivation.
    pub bump: u8,
}

/// An order to the external token program to burn `amount` units of `mint`
/// from the token account `from`, authorized by `authority`'s own signature.
#[derive(Clone, Copy, PartialEq, Eq, Structural, Debug)]
pub struct BurnOrder {
    pub mint: AccountId,
    pub from: AccountId,
    pub authority: AccountId,
    pub amount: u64,
}

/// An order to the external oracle network to produce a random value for the
/// request account `vrf`, funded from the user's escrowed fee and signed by
/// the user's redemption record acting as its own program-derived authority.
#[derive(Clone, Copy, PartialEq, Eq, Structural, Debug)]
pub struct RandomnessRequest {
    /// The redemption record signs for itself: the user's identity as seed
    /// plus the stored bump.
    pub authority: SigningAuthority,
    /// Bump discriminant of the oracle network's global state account.
    pub state_bump: u8,
    /// Bump discriminant of the oracle permission account.
    pub permission_bump: u8,
    pub vrf: AccountId,
    pub oracle_queue: AccountId,
    pub queue_authority: AccountId,
    pub data_buffer: AccountId,
    pub permission: AccountId,
    pub escrow: AccountId,
    pub payer_wallet: AccountId,
    pub payer_authority: AccountId,
}

/// Everything the runtime must carry out, in order, for a successful open:
/// first the burn, then the randomness request. The whole open commits only
/// if both succeed.
#[derive(Clone, Copy, PartialEq, Eq, Structural, Debug)]
pub struct OpenAction {
    pub burn: BurnOrder,
    pub request: RandomnessRequest,
}

/// The accounts an open transaction operates on, as the plain values this
/// program reads of them.
#[derive(Clone, Copy, PartialEq, Eq, Structural, Debug)]
pub struct OpenLootbox {
    /// The calling user, who signed the transaction.
    pub user: AccountId,
    /// The user's claim ledger slot.
    pub lootbox_pointer: LootboxPointer,
    /// The stake token charged for opening.
    pub stake_mint: AccountId,
    /// The user's stake-token account, debited by the burn.
    pub stake_mint_ata: AccountId,
    /// The user's eligibility record, owned by the staking subsystem.
    pub stake_state: UserStakeInfo,
    /// The user's redemption record.
    pub state: UserState,
    /// The oracle randomness-request account supplied by the caller.
    pub vrf: AccountId,
    pub oracle_queue: AccountId,
    pub queue_authority: AccountId,
    pub data_buffer: AccountId,
    pub permission: AccountId,
    /// Token account escrowing the oracle fee.
    pub escrow: AccountId,
    /// The user's token account funding the oracle fee.
    pub payer_wallet: AccountId,
}

impl OpenLootbox {
    /// What the runtime's account resolution establishes before the
    /// instruction body runs: the eligibility record belongs to the caller.
    pub open spec fn accounts_resolved(self) -> bool {
        self.stake_state.user_pubkey == self.user
    }

    /// The supplied randomness-request account is the one bound to the
    /// user's redemption record.
    pub open spec fn vrf_bound(self) -> bool {
        self.state.vrf == self.vrf
    }

    /// The ledger guard: a new open is permitted only while no earlier open
    /// on this slot is still unclaimed.
    pub open spec fn ledger_free(self) -> bool {
        !self.lootbox_pointer.is_initialized || self.lootbox_pointer.claimed
    }

    /// Exactly the inputs on which an open of tier `box_number` succeeds.
    pub open spec fn open_allowed(self, box_number: u64) -> bool {
        &&& self.vrf_bound()
        &&& is_eligible(box_number, self.stake_state.total_earned)
        &&& self.ledger_free()
    }

    /// The error signalled when an open is refused: a mismatched randomness
    /// account is reported first, everything else as an invalid loot box.
    pub open spec fn open_error(self) -> LootboxError {
        if !self.vrf_bound() {
            LootboxError::InvalidVrfAccount
        } else {
            LootboxError::InvalidLootbox
        }
    }

    /// The accounts after a successful open: the pending result is cleared,
    /// the record becomes redeemable, and the ledger slot is marked as
    /// holding an initialized, unclaimed container.
    pub open spec fn open_post(self) -> OpenLootbox {
        OpenLootbox {
            state: (UserState { result: 0, redeemable: true, ..self.state }),
            lootbox_pointer: (LootboxPointer { is_initialized: true, claimed: false }),
            ..self
        }
    }

    /// The randomness request submitted on a successful open, signed by the
    /// redemption record itself through its seed-plus-bump capability.
    pub open spec fn randomness_request(self) -> RandomnessRequest {
        RandomnessRequest {
            authority: (SigningAuthority { seed: self.user, bump: self.state.bump }),
            state_bump: self.state.switchboard_state_bump,
            permission_bump: self.state.vrf_permission_bump,
            vrf: self.vrf,
            oracle_queue: self.oracle_queue,
            queue_authority: self.queue_authority,
            data_buffer: self.data_buffer,
            permission: self.permission,
            escrow: self.escrow,
            payer_wallet: self.payer_wallet,
            payer_authority: self.user,
        }
    }

    /// The orders issued by a successful open of tier `box_number`.
    pub open spec fn open_action(self, box_number: u64) -> OpenAction {
        OpenAction {
            burn: (BurnOrder {
                mint: self.stake_mint,
                from: self.stake_mint_ata,
                authority: self.user,
                amount: (box_number * 100) as u64,
            }),
            request: self.randomness_request(),
        }
    }

    /// Opens a loot container of tier `box_number`.
    ///
    /// Validates the tier against the doubling progression and the user's
    /// earned credit, checks that the supplied randomness account is the one
    /// bound to the record and that no earlier open is still unclaimed, and
    /// on success returns the orders the runtime must carry out -- burn
    /// `box_number * 100` stake-token units, then submit the randomness
    /// request under the program-derived authority -- while the record is
    /// marked redeemable with a cleared pending result.
    ///
    /// The mutation and the returned orders form one atomic transaction: the
    /// runtime persists the mutated accounts only if both external calls
    /// succeed and discards every write otherwise, so a failed request never
    /// leaves the user marked as holding a pending reward.
    ///
    /// A tier too large for its burn amount to be representable is excluded:
    /// charging it would overflow the token unit count.
    pub fn process_instruction(&mut self, box_number: u64) -> (r: Result<OpenAction, LootboxError>)
        requires
            old(self).accounts_resolved(),
            is_eligible(box_number, old(self).stake_state.total_earned) ==> box_number
                <= u64::MAX / 100,
        ensures
            r is Ok <==> old(self).open_allowed(box_number),
            r matches Err(e) ==> e == old(self).open_error() && *final(self) == *old(self),
            r matches Ok(a) ==> a == old(self).open_action(box_number) && a.burn.amount
                == box_number * 100 && *final(self) == old(self).open_post(),
    {
        if self.state.vrf != self.vrf {
            return Err(LootboxError::InvalidVrfAccount);
        }

        match check_eligibility(box_number, self.stake_state.total_earned) {
            Ok(()) => {},
            Err(e) => {
                return Err(e);
            },
        }

        if !(!self.lootbox_pointer.is_initialized || self.lootbox_pointer.claimed) {
            return Err(LootboxError::InvalidLootbox);
        }

        let action = OpenAction {
            burn: BurnOrder {
                mint: self.stake_mint,
                from: self.stake_mint_ata,
                authority: self.user,
                amount: box_number * 100,
            },
            request: RandomnessRequest {
                authority: SigningAuthority { seed: self.user, bump: self.state.bump },
                state_bump: self.state.switchboard_state_bump,
                permission_bump: self.state.vrf_permission_bump,
                vrf: self.vrf,
                oracle_queue: self.oracle_queue,
                queue_authority: self.queue_authority,
                data_buffer: self.data_buffer,
                permission: self.permission,
                escrow: self.escrow,
                payer_wallet: self.payer_wallet,
                payer_authority: self.user,
            },
        };

        self.state.result = 0;
        self.state.redeemable = true;

        self.lootbox_pointer.claimed = false;
        self.lootbox_pointer.is_initialized = true;

        Ok(action)
    }
}

/// The identity under which the external staking subsystem is registered;
/// the eligibility records consumed here are owned by it.
pub const STAKING_PROGRAM_ID: u64 = 0x3C0C_1E4B_3617_75D1;

/// The external staking subsystem whose records feed tier eligibility.
#[derive(Clone, Copy)]
pub struct StakingProgram;

impl StakingProgram {
    /// The configured identity of the staking subsystem's program.
    pub fn id() -> (r: AccountId)
        ensures
            r == (AccountId { id: STAKING_PROGRAM_ID }),
    {
        AccountId { id: STAKING_PROGRAM_ID }
    }
}

} // verus!
