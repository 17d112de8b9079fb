//! Claiming staking rewards: the points a user has earned are issued as units
//! of the reward asset, signed by the derived authority of the configuration.

use vstd::prelude::*;
use crate::account::{Mint, TokenAccount};
use crate::authority::with_bump;
use crate::identity::Identity;
use crate::instruction::{MintTo, MintToView};

verus! {

/// Why a claim is refused.
#[derive(Clone, Copy, Debug, PartialEq, Eq, Structural)]
pub enum StakeError {
    /// The reward does not fit the amount of an instruction.
    Overflow,
}

/// The staking configuration: its address, and the bump that completes its
/// seeds.
#[derive(Clone, Copy, Debug, PartialEq, Eq)]
pub struct StakeConfig {
    pub key: Identity,
    pub bump: u8,
}

/// What a user has earned and not yet claimed.
#[derive(Clone, Copy, Debug, PartialEq, Eq)]
pub struct UserAccount {
    pub points: u32,
}

/// The accounts of one claim.
#[derive(Clone, Copy, Debug, PartialEq, Eq)]
pub struct Claim {
    /// Who claims, and signs.
    pub user: Identity,
    /// Where the user receives the reward.
    pub rewards_ata: TokenAccount,
    pub config: StakeConfig,
    pub user_account: UserAccount,
    /// The reward asset, issued under the authority of the configuration.
    pub reward_mint: Mint,
}

/// Ten to the power `decimals`: the number of smallest units in one whole unit
/// of an asset quoted with that many decimals.
pub open spec fn pow10(decimals: nat) -> nat
    decreases decimals,
{
    if decimals == 0 {
        1
    } else {
        10 * pow10((decimals - 1) as nat)
    }
}

/// A higher power of ten is no smaller.
pub proof fn lemma_pow10_grows(low: nat, high: nat)
    requires
        low <= high,
    ensures
        1 <= pow10(low) <= pow10(high),
    decreases high,
{
    if high > 0 {
        if low == high {
            lemma_pow10_grows((low - 1) as nat, (high - 1) as nat);
        } else {
            lemma_pow10_grows(low, (high - 1) as nat);
        }
    }
}

/// The tag that opens the seeds of the configuration: the bytes of "config".
pub open spec fn config_tag() -> Seq<u8> {
    seq![99u8, 111u8, 110u8, 102u8, 105u8, 103u8]
}

/// The seeds that sign for the configuration: its tag completed by the bump.
pub open spec fn config_signer_seeds(bump: u8) -> Seq<Seq<u8>> {
    with_bump(seq![config_tag()], bump)
}

/// Ten to the power `decimals`, where it fits.
pub fn checked_pow10(decimals: u8) -> (r: Option<u64>)
    ensures
        match r {
            Some(p) => p == pow10(decimals as nat),
            None => pow10(decimals as nat) > u64::MAX,
        },
{
    let mut power: u64 = 1;
    let mut i: u8 = 0;
    while i < decimals
        invariant
            i <= decimals,
            power == pow10(i as nat),
        decreases decimals - i,
    {
        match power.checked_mul(10) {
            Some(next) => {
                power = next;
            },
            None => {
                proof {
                    lemma_pow10_grows((i + 1) as nat, decimals as nat);
                }
                return None;
            },
        }
        i += 1;
    }
    Some(power)
}

/// Builds the seeds that sign for the configuration with `bump`.
pub fn config_signer_seeds_of(bump: u8) -> (seeds: Vec<Vec<u8>>)
    ensures
        seeds.deep_view() == config_signer_seeds(bump),
{
    let mut tag: Vec<u8> = Vec::new();
    tag.push(99u8);
    tag.push(111u8);
    tag.push(110u8);
    tag.push(102u8);
    tag.push(105u8);
    tag.push(103u8);
    assert(tag@ =~= config_tag());
    let mut last: Vec<u8> = Vec::new();
    last.push(bump);
    assert(last@ =~= seq![bump]);
    let mut seeds: Vec<Vec<u8>> = Vec::new();
    seeds.push(tag);
    seeds.push(last);
    proof {
        assert forall|i: int| 0 <= i < seeds@.len() implies #[trigger] seeds.deep_view()[i]
            == seeds@[i]@ by {
            assert(seeds@[i].deep_view() =~= seeds@[i]@);
        }
        assert(seeds.deep_view() =~= config_signer_seeds(bump));
    }
    seeds
}

impl Claim {
    /// Whether the reward can be paid: a whole unit of the reward asset fits an
    /// amount, and so does the reward.
    pub open spec fn payable(&self) -> bool {
        &&& pow10(self.reward_mint.decimals as nat) <= u64::MAX
        &&& self.user_account.points * pow10(self.reward_mint.decimals as nat) <= u64::MAX
    }

    /// The reward: one whole unit of the reward asset for each point, issued
    /// into the user's account and signed by the derived authority of the
    /// configuration.
    pub open spec fn reward(&self) -> MintToView {
        MintToView {
            mint: self.reward_mint.key,
            to: self.rewards_ata.id(),
            authority: self.config.key,
            amount: (self.user_account.points * pow10(self.reward_mint.decimals as nat)) as u64,
            signer_seeds: Some(config_signer_seeds(self.config.bump)),
        }
    }

    /// The points to persist once the ledger has answered the issue of the
    /// reward, for the accounts as they stood before the claim: none where the
    /// reward was issued, all of them where it was not.
    pub open spec fn points_left(&self, issued: bool) -> u32 {
        if issued {
            0
        } else {
            self.user_account.points
        }
    }

    /// The points to persist once the ledger has answered the issue of the
    /// reward, for the accounts as they stood before the claim.
    pub fn points_after(&self, issued: bool) -> (points: u32)
        ensures
            points == self.points_left(issued),
    {
        if issued {
            0
        } else {
            self.user_account.points
        }
    }

    /// Claims the points earned: returns the instruction that issues the
    /// reward, and sets the points back to zero in this value.
    ///
    /// Refused, with the points untouched, when the reward does not fit an
    /// amount.
    ///
    /// The points are spent only once the ledger has issued the reward: the
    /// caller persists [`Claim::points_after`] of the outcome, not this value.
    pub fn claim(&mut self) -> (r: Result<MintTo, StakeError>)
        ensures
            match r {
                Ok(ix) => old(self).payable() && ix@ == old(self).reward() && *final(self) == (Claim {
                    user_account: UserAccount { points: 0 },
                    ..*old(self)
                }),
                Err(e) => !old(self).payable() && e == StakeError::Overflow && *final(self) == *old(
                    self,
                ),
            },
    {
        let unit = match checked_pow10(self.reward_mint.decimals) {
            Some(unit) => unit,
            None => {
                return Err(StakeError::Overflow);
            },
        };
        let points: u64 = self.user_account.points as u64;
        let amount = match points.checked_mul(unit) {
            Some(amount) => amount,
            None => {
                return Err(StakeError::Overflow);
            },
        };
        let ix = MintTo {
            mint: self.reward_mint.key,
            to: self.rewards_ata.holding_id(),
            authority: self.config.key,
            amount,
            signer_seeds: Some(config_signer_seeds_of(self.config.bump)),
        };
        self.user_account.points = 0;
        Ok(ix)
    }
}

} // verus!
