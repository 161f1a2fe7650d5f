use vstd::prelude::*;

use crate::address::Address;

verus! {

/// The staking configuration that the instruction reads.
#[derive(Clone, Copy, Debug, PartialEq, Eq)]
pub struct StakeConfig {
    /// How many NFTs one user may have staked at once.
    pub max_stake: u8,
    pub bump: u8,
}

/// A user's staking record.
#[derive(Clone, Copy, Debug, PartialEq, Eq)]
pub struct UserAccount {
    pub amount_staked: u8,
    pub bump: u8,
}

/// The record of one staked NFT.
#[derive(Clone, Copy, Debug, PartialEq, Eq)]
pub struct StakeAccounts {
    pub owner: Address,
    pub nft_mint: Address,
    /// Unix time at which the NFT was staked.
    pub staked_at: i64,
    pub bump: u8,
}

/// The bumps that the runtime found for the instruction's derived accounts.
#[derive(Clone, Copy, Debug, PartialEq, Eq)]
pub struct StakeBumps {
    pub stake_account: u8,
}

/// Why a stake is refused.
#[derive(Clone, Copy, Debug, PartialEq, Eq)]
pub enum StakeError {
    /// The user already has the configured maximum staked.
    ExceededMaxStake,
}

/// The accounts of the staking instruction, as the logic reads and writes them.
#[derive(Clone, Copy, Debug, PartialEq, Eq)]
pub struct Stake {
    /// The user, who signs and pays.
    pub user: Address,
    pub nft_mint: Address,
    /// The user's associated token account for the NFT.
    pub nft_mint_ata: Address,
    /// The NFT's master edition account.
    pub edition: Address,
    pub config: StakeConfig,
    pub stake_account_key: Address,
    pub stake_account: StakeAccounts,
    pub user_account: UserAccount,
    pub token_program: Address,
    /// The token metadata program, which carries out the freeze.
    pub metadata_program: Address,
}

/// The delegate approval for the token program to carry out.
#[derive(Clone, Copy, Debug, PartialEq, Eq)]
pub struct ApprovePlan {
    pub program: Address,
    pub to: Address,
    pub delegate: Address,
    pub authority: Address,
    pub amount: u64,
}

/// The freeze of the delegated token account for the metadata program to
/// carry out, signed with `signer_seeds`.
#[derive(Clone, Debug, PartialEq, Eq)]
pub struct FreezePlan {
    /// The program to invoke: the token metadata program.
    pub program: Address,
    pub delegate: Address,
    pub token_account: Address,
    pub edition: Address,
    pub mint: Address,
    pub token_program: Address,
    pub signer_seeds: Vec<Vec<u8>>,
}

/// The calls that complete a stake, in the order they are made.
#[derive(Clone, Debug, PartialEq, Eq)]
pub struct StakePlan {
    pub approve: ApprovePlan,
    pub freeze: FreezePlan,
}

/// The bytes of `"stake_account"`, the first signer seed.
pub open spec fn stake_seed_prefix() -> Seq<u8> {
    seq![115u8, 116, 97, 107, 101, 95, 97, 99, 99, 111, 117, 110, 116]
}

/// The signer seeds of the freeze call, which derive the stake record's
/// address: the prefix, the mint's address and the record's bump.
pub open spec fn stake_signer_seeds(nft_mint: Address, bump: u8) -> Seq<Seq<u8>> {
    seq![stake_seed_prefix(), nft_mint.view_bytes(), seq![bump]]
}

impl Stake {
    /// Whether the user may stake one more NFT.
    pub open spec fn may_stake(&self) -> bool {
        self.user_account.amount_staked < self.config.max_stake
    }

    /// The record written for the staked NFT.
    pub open spec fn new_record(&self, bumps: StakeBumps, now: i64) -> StakeAccounts {
        StakeAccounts {
            owner: self.user,
            nft_mint: self.nft_mint,
            staked_at: now,
            bump: bumps.stake_account,
        }
    }

    /// Whether the user may stake one more NFT: fewer than `max_stake` are
    /// staked.
    pub fn can_stake(&self) -> (r: bool)
        ensures
            r == self.may_stake(),
    {
        self.user_account.amount_staked < self.config.max_stake
    }

    /// The accounts after a stake at time `now`: the record written and the
    /// user's count raised by one.
    pub open spec fn staked(&self, bumps: StakeBumps, now: i64) -> Stake
        recommends
            self.may_stake(),
    {
        Stake {
            stake_account: self.new_record(bumps, now),
            user_account: UserAccount {
                amount_staked: (self.user_account.amount_staked + 1) as u8,
                ..self.user_account
            },
            ..*self
        }
    }

    /// The approval that makes the stake record the delegate of one token.
    pub open spec fn approve_plan(&self) -> ApprovePlan {
        ApprovePlan {
            program: self.token_program,
            to: self.nft_mint_ata,
            delegate: self.stake_account_key,
            authority: self.user,
            amount: 1,
        }
    }

    /// Whether `f` is the freeze that the stake record, as delegate, signs.
    pub open spec fn is_freeze_plan(&self, bumps: StakeBumps, f: FreezePlan) -> bool {
        &&& f.program == self.metadata_program
        &&& f.delegate == self.stake_account_key
        &&& f.token_account == self.nft_mint_ata
        &&& f.edition == self.edition
        &&& f.mint == self.nft_mint
        &&& f.token_program == self.token_program
        &&& f.signer_seeds.deep_view() == stake_signer_seeds(
            self.nft_mint,
            bumps.stake_account,
        )
    }

    /// Stakes the NFT at time `now`. Refused with `ExceededMaxStake` exactly
    /// when the user already has `max_stake` or more staked, and then nothing
    /// changes. Otherwise the record of the NFT is written, the user's count
    /// rises by one, and the approval and the freeze that the runtime is to
    /// make are returned.
    pub fn stake(&mut self, bumps: &StakeBumps, now: i64) -> (r: Result<StakePlan, StakeError>)
        ensures
            r is Err <==> !old(self).may_stake(),
            r is Err ==> r == Err::<StakePlan, StakeError>(StakeError::ExceededMaxStake),
            r is Err ==> *final(self) == *old(self),
            r matches Ok(p) ==> {
                &&& *final(self) == old(self).staked(*bumps, now)
                &&& p.approve == old(self).approve_plan()
                &&& old(self).is_freeze_plan(*bumps, p.freeze)
            },
    {
        if !self.can_stake() {
            return Err(StakeError::ExceededMaxStake);
        }
        self.stake_account = StakeAccounts {
            owner: self.user,
            nft_mint: self.nft_mint,
            staked_at: now,
            bump: bumps.stake_account,
        };
        let approve = ApprovePlan {
            program: self.token_program,
            to: self.nft_mint_ata,
            delegate: self.stake_account_key,
            authority: self.user,
            amount: 1,
        };
        let prefix: Vec<u8> = vec![115u8, 116, 97, 107, 101, 95, 97, 99, 99, 111, 117, 110, 116];
        let mint_seed = self.nft_mint.to_seed();
        let bump_seed: Vec<u8> = vec![self.stake_account.bump];
        assert(prefix@ =~= stake_seed_prefix());
        assert(bump_seed@ =~= seq![bumps.stake_account]);
        let signer_seeds: Vec<Vec<u8>> = vec![prefix, mint_seed, bump_seed];
        assert(signer_seeds.deep_view() =~~= stake_signer_seeds(
            self.nft_mint,
            bumps.stake_account,
        ));
        let freeze = FreezePlan {
            program: self.metadata_program,
            delegate: self.stake_account_key,
            token_account: self.nft_mint_ata,
            edition: self.edition,
            mint: self.nft_mint,
            token_program: self.token_program,
            signer_seeds,
        };
        self.user_account.amount_staked = self.user_account.amount_staked + 1;
        Ok(StakePlan { approve, freeze })
    }
}

} // verus!
