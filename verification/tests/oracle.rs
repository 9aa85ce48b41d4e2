use mpl_core_staking::oracle::{create_oracle, CreateOracleBumps, ExternalValidationResult, Oracle, OracleValidation};
use mpl_core_staking::address::Address;
use mpl_core_staking::collection::{
    create_collection_plugins, HookableLifecycleEvent, PluginAuthority, ValidationResultsOffset,
    TRANSFER_CHECK_FLAGS,
};
use mpl_core_staking::config::{config_for_collection, Config, InitConfigBumps};
use mpl_core_staking::error::StakingError;

const MONDAY: i64 = 1_704_067_200;

#[test]
fn oracle_approves_transfers_while_market_open() {
    let bumps = CreateOracleBumps { oracle: 250, reward_vault: 251 };
    let oracle = create_oracle(MONDAY + 15 * 3600, &bumps);
    assert_eq!(
        oracle,
        Oracle {
            validation: OracleValidation::V1 {
                create: ExternalValidationResult::Pass,
                transfer: ExternalValidationResult::Approved,
                burn: ExternalValidationResult::Pass,
                update: ExternalValidationResult::Pass,
            },
            bump: 250,
            vault_bump: 251,
        }
    );
}

#[test]
fn oracle_rejects_transfers_while_market_closed() {
    let bumps = CreateOracleBumps { oracle: 1, reward_vault: 2 };
    for t in [MONDAY, MONDAY + 22 * 3600, MONDAY + 5 * 86_400 + 15 * 3600] {
        let oracle = create_oracle(t, &bumps);
        assert_eq!(
            oracle.validation,
            OracleValidation::V1 {
                create: ExternalValidationResult::Pass,
                transfer: ExternalValidationResult::Rejected,
                burn: ExternalValidationResult::Pass,
                update: ExternalValidationResult::Pass,
            }
        );
    }
}

#[test]
fn new_collection_starts_with_zero_counts() {
    let plugins = create_collection_plugins(&Address { bytes: [8; 32] });
    assert_eq!(plugins.attributes.len(), 2);
    assert_eq!(plugins.attributes[0].key, "rewards_deposited");
    assert_eq!(plugins.attributes[0].value, "0");
    assert_eq!(plugins.attributes[1].key, "total_staked");
    assert_eq!(plugins.attributes[1].value, "0");
    assert_eq!(plugins.attributes_authority, Some(PluginAuthority::UpdateAuthority));
    assert_eq!(plugins.oracle.base_address, Address { bytes: [8; 32] });
    assert_eq!(plugins.oracle.init_plugin_authority, None);
    assert_eq!(plugins.oracle.lifecycle_checks, vec![(HookableLifecycleEvent::Transfer, 4)]);
    assert_eq!(plugins.oracle.base_address_config, None);
    assert_eq!(plugins.oracle.results_offset, Some(ValidationResultsOffset::Anchor));
    assert_eq!(TRANSFER_CHECK_FLAGS, 4);
}

#[test]
fn config_carries_parameters_and_bumps() {
    let a = Address { bytes: [1; 32] };
    let bumps = InitConfigBumps { config: 9, rewards_mint: 8 };
    assert_eq!(
        config_for_collection(&a, &a, 5, 3, 40, &bumps),
        Ok(Config { points_per_stake: 5, freeze_period: 3, burn_rewards: 40, rewards_bump: 8, config_bump: 9 })
    );
    let b = Address { bytes: [2; 32] };
    assert_eq!(config_for_collection(&a, &b, 5, 3, 40, &bumps), Err(StakingError::InvalidAuthority));
}
