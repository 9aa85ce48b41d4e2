use vstd::prelude::*;

use crate::account::{decoded_collection, read_collection};
use crate::address::Address;
use crate::error::{InstructionError, StakingError};

verus! {

/// The staking configuration of a collection.
#[derive(Clone, Copy, Debug, PartialEq, Eq, Structural)]
pub struct Config {
    /// Reward points earned per stake.
    pub points_per_stake: u32,
    /// Days an asset stays frozen once staked.
    pub freeze_period: u8,
    /// Reward tokens paid per whole staked day when a staked asset is burnt.
    pub burn_rewards: u32,
    /// Bump of the reward mint's program address.
    pub rewards_bump: u8,
    /// Bump of the configuration's program address.
    pub config_bump: u8,
}

/// The bumps of the program addresses that `init_config` creates.
#[derive(Clone, Copy, Debug, PartialEq, Eq, Structural)]
pub struct InitConfigBumps {
    pub config: u8,
    pub rewards_mint: u8,
}

/// The configuration the given parameters and bumps make.
pub open spec fn config_of(
    points_per_stake: u32,
    freeze_period: u8,
    burn_rewards: u32,
    bumps: InitConfigBumps,
) -> Config {
    Config {
        points_per_stake,
        freeze_period,
        burn_rewards,
        rewards_bump: bumps.rewards_mint,
        config_bump: bumps.config,
    }
}

/// Makes the configuration of a collection whose update authority is
/// `collection_update_authority`; refused unless that is the program's `update_authority`.
pub fn config_for_collection(
    collection_update_authority: &Address,
    update_authority: &Address,
    points_per_stake: u32,
    freeze_period: u8,
    burn_rewards: u32,
    bumps: &InitConfigBumps,
) -> (config: Result<Config, StakingError>)
    ensures
        config == if *collection_update_authority == *update_authority {
            Ok(config_of(points_per_stake, freeze_period, burn_rewards, *bumps))
        } else {
            Err(StakingError::InvalidAuthority)
        },
{
    if !collection_update_authority.same_as(update_authority) {
        return Err(StakingError::InvalidAuthority);
    }
    Ok(
        Config {
            points_per_stake,
            freeze_period,
            burn_rewards,
            rewards_bump: bumps.rewards_mint,
            config_bump: bumps.config,
        },
    )
}

/// Validates the collection account and makes its staking configuration: the account must
/// read as a Metaplex Core collection (else the read error is returned) whose update
/// authority is the program's `update_authority`.
pub fn init_config(
    collection_data: &[u8],
    update_authority: &Address,
    points_per_stake: u32,
    freeze_period: u8,
    burn_rewards: u32,
    bumps: &InitConfigBumps,
) -> (config: Result<Config, InstructionError>)
    ensures
        match decoded_collection(collection_data@) {
            Err(m) => config matches Err(InstructionError::AccountData(e)) && e@ == m,
            Ok(c) => config == if c.update_authority == *update_authority {
                Ok::<Config, InstructionError>(
                    config_of(points_per_stake, freeze_period, burn_rewards, *bumps),
                )
            } else {
                Err(InstructionError::Staking(StakingError::InvalidAuthority))
            },
        },
{
    let authority = match read_collection(collection_data) {
        Ok(c) => c.update_authority,
        Err(e) => {
            return Err(e);
        },
    };
    match config_for_collection(
        &authority,
        update_authority,
        points_per_stake,
        freeze_period,
        burn_rewards,
        bumps,
    ) {
        Ok(c) => Ok(c),
        Err(e) => Err(InstructionError::Staking(e)),
    }
}

/// A configuration carries its parameters and bumps unchanged.
pub proof fn law_config_keeps_parameters(
    points_per_stake: u32,
    freeze_period: u8,
    burn_rewards: u32,
    bumps: InitConfigBumps,
)
    ensures
        config_of(points_per_stake, freeze_period, burn_rewards, bumps).points_per_stake
            == points_per_stake,
        config_of(points_per_stake, freeze_period, burn_rewards, bumps).freeze_period
            == freeze_period,
        config_of(points_per_stake, freeze_period, burn_rewards, bumps).burn_rewards
            == burn_rewards,
        config_of(points_per_stake, freeze_period, burn_rewards, bumps).rewards_bump
            == bumps.rewards_mint,
        config_of(points_per_stake, freeze_period, burn_rewards, bumps).config_bump
            == bumps.config,
{
}

/// The configuration of a collection governed by the program carries the parameters
/// unchanged; any other collection is refused.
pub proof fn law_config_for_own_collection(
    collection_update_authority: Address,
    update_authority: Address,
    points_per_stake: u32,
    freeze_period: u8,
    burn_rewards: u32,
    bumps: InitConfigBumps,
    config: Result<Config, StakingError>,
)
    requires
        config == if collection_update_authority == update_authority {
            Ok(config_of(points_per_stake, freeze_period, burn_rewards, bumps))
        } else {
            Err(StakingError::InvalidAuthority)
        },
    ensures
        collection_update_authority == update_authority ==> config == Ok::<Config, StakingError>(
            Config {
                points_per_stake,
                freeze_period,
                burn_rewards,
                rewards_bump: bumps.rewards_mint,
                config_bump: bumps.config,
            },
        ),
        collection_update_authority != update_authority ==> config == Err::<Config, StakingError>(
            StakingError::InvalidAuthority,
        ),
{
}

} // verus!
