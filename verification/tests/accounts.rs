use mpl_core::accounts::{BaseAssetV1, BaseCollectionV1};
use mpl_core_staking::account::{
    asset_attributes_are_readable, collection_attributes_are_readable, read_asset, read_collection,
    AssetBase, Attribute, CollectionBase, UpdateAuthority,
};
use mpl_core_staking::address::Address;
use mpl_core_staking::burn::{
    begin_burn, burn_reward_of_account, checked_burn_reward_of_account,
    checked_decrement_collection_total_staked, decrement_collection_total_staked, BurnReward,
};
use mpl_core_staking::config::{init_config, Config, InitConfigBumps};
use mpl_core_staking::error::{InstructionError, StakingError};

const DAY: i64 = 86_400;
const STAKED_AT: i64 = 1_704_067_200;

fn push_str(out: &mut Vec<u8>, s: &str) {
    out.extend_from_slice(&(s.len() as u32).to_le_bytes());
    out.extend_from_slice(s.as_bytes());
}

/// Borsh bytes of a `BaseAssetV1` account.
fn asset_bytes(owner: [u8; 32], authority_tag: u8, authority: Option<[u8; 32]>) -> Vec<u8> {
    let mut out = vec![1u8];
    out.extend_from_slice(&owner);
    out.push(authority_tag);
    if let Some(a) = authority {
        out.extend_from_slice(&a);
    }
    push_str(&mut out, "Staked NFT");
    push_str(&mut out, "https://example.com/nft.json");
    out.push(0);
    out
}

/// Borsh bytes of a `BaseCollectionV1` account.
fn collection_bytes(authority: [u8; 32]) -> Vec<u8> {
    let mut out = vec![5u8];
    out.extend_from_slice(&authority);
    push_str(&mut out, "Staking Collection");
    push_str(&mut out, "https://example.com/c.json");
    out.extend_from_slice(&3u32.to_le_bytes());
    out.extend_from_slice(&2u32.to_le_bytes());
    out
}

/// Appends a plugin header, an `Attributes` plugin with the given pairs and a plugin
/// registry that points at it, as Metaplex Core lays them out after the base.
fn with_attributes(mut base: Vec<u8>, pairs: &[(&str, &str)]) -> Vec<u8> {
    let mut plugin = vec![6u8];
    plugin.extend_from_slice(&(pairs.len() as u32).to_le_bytes());
    for (k, v) in pairs {
        push_str(&mut plugin, k);
        push_str(&mut plugin, v);
    }
    let plugin_offset = base.len() + 9;
    let registry_offset = plugin_offset + plugin.len();
    base.push(3);
    base.extend_from_slice(&(registry_offset as u64).to_le_bytes());
    base.extend_from_slice(&plugin);
    base.push(4);
    base.extend_from_slice(&1u32.to_le_bytes());
    base.push(6);
    base.push(2);
    base.extend_from_slice(&(plugin_offset as u64).to_le_bytes());
    base.extend_from_slice(&0u32.to_le_bytes());
    base
}

fn core_program() -> Address {
    Address { bytes: mpl_core::ID.to_bytes() }
}

fn staked_nft(staked_at: &str) -> Vec<u8> {
    with_attributes(asset_bytes([7; 32], 2, Some([9; 32])), &[("staked", "true"), ("staked_at", staked_at)])
}

fn attr(key: &str, value: &str) -> Attribute {
    Attribute { key: key.to_string(), value: value.to_string() }
}

#[test]
fn program_address_is_mpl_core() {
    assert_eq!(Address::mpl_core_program(), core_program());
}

#[test]
fn reads_asset_base() {
    let data = asset_bytes([7; 32], 2, Some([9; 32]));
    assert_eq!(
        read_asset(&data),
        Ok(AssetBase {
            owner: Address { bytes: [7; 32] },
            update_authority: UpdateAuthority::Collection(Address { bytes: [9; 32] }),
            name: "Staked NFT".to_string(),
            uri: "https://example.com/nft.json".to_string(),
            seq: None,
        })
    );
}

#[test]
fn reads_other_update_authorities() {
    let data = asset_bytes([7; 32], 1, Some([3; 32]));
    assert_eq!(read_asset(&data).unwrap().update_authority, UpdateAuthority::Address(Address { bytes: [3; 32] }));
    let data = asset_bytes([7; 32], 0, None);
    assert_eq!(read_asset(&data).unwrap().update_authority, UpdateAuthority::Nobody);
}

#[test]
fn asset_bytes_may_carry_plugin_data_after_the_base() {
    let data = staked_nft("1704067200");
    assert_eq!(read_asset(&data).unwrap().owner, Address { bytes: [7; 32] });
}

#[test]
fn unreadable_asset_returns_the_read_error() {
    for data in [vec![], asset_bytes([7; 32], 2, Some([9; 32]))[..40].to_vec(), asset_bytes([7; 32], 7, Some([9; 32]))] {
        let expected = format!("{}", BaseAssetV1::from_bytes(&data).unwrap_err());
        assert_eq!(read_asset(&data), Err(InstructionError::AccountData(expected)));
    }
}

#[test]
fn reads_collection_base() {
    let data = collection_bytes([4; 32]);
    assert_eq!(
        read_collection(&data),
        Ok(CollectionBase {
            update_authority: Address { bytes: [4; 32] },
            name: "Staking Collection".to_string(),
            uri: "https://example.com/c.json".to_string(),
            num_minted: 3,
            current_size: 2,
        })
    );
    let expected = format!("{}", BaseCollectionV1::from_bytes(&data[..10]).unwrap_err());
    assert_eq!(read_collection(&data[..10]), Err(InstructionError::AccountData(expected)));
}

#[test]
fn init_config_for_program_governed_collection() {
    let data = collection_bytes([4; 32]);
    let bumps = InitConfigBumps { config: 254, rewards_mint: 253 };
    let config = init_config(&data, &Address { bytes: [4; 32] }, 10, 7, 100, &bumps);
    assert_eq!(
        config,
        Ok(Config { points_per_stake: 10, freeze_period: 7, burn_rewards: 100, rewards_bump: 253, config_bump: 254 })
    );
}

#[test]
fn init_config_refuses_foreign_authority() {
    let data = collection_bytes([4; 32]);
    let bumps = InitConfigBumps { config: 1, rewards_mint: 2 };
    let config = init_config(&data, &Address { bytes: [5; 32] }, 10, 7, 100, &bumps);
    assert_eq!(config, Err(InstructionError::Staking(StakingError::InvalidAuthority)));
}

#[test]
fn init_config_returns_the_collection_read_error() {
    let bumps = InitConfigBumps { config: 1, rewards_mint: 2 };
    let expected = format!("{}", BaseCollectionV1::from_bytes(&[5, 1, 2]).unwrap_err());
    let config = init_config(&[5, 1, 2], &Address { bytes: [4; 32] }, 10, 7, 100, &bumps);
    assert_eq!(config, Err(InstructionError::AccountData(expected)));
}

#[test]
fn burn_reward_reads_the_asset_plugin() {
    let data = staked_nft("1704067200");
    assert!(asset_attributes_are_readable(&core_program(), &data));
    let r = burn_reward_of_account(STAKED_AT + 4 * DAY, &core_program(), &data, 5);
    assert_eq!(r, Ok(BurnReward { staked_days: 4, amount: 20 }));
}

#[test]
fn asset_without_plugin_is_not_staked() {
    let data = asset_bytes([7; 32], 2, Some([9; 32]));
    assert_eq!(burn_reward_of_account(STAKED_AT + DAY, &core_program(), &data, 5), Err(StakingError::NotStaked));
}

#[test]
fn asset_of_another_program_is_not_staked() {
    let data = staked_nft("1704067200");
    let other = Address { bytes: [1; 32] };
    assert_eq!(burn_reward_of_account(STAKED_AT + DAY, &other, &data, 5), Err(StakingError::NotStaked));
}

#[test]
fn plugin_attributes_feed_the_bonus_rules() {
    let data = with_attributes(asset_bytes([7; 32], 2, Some([9; 32])), &[("staked", "false"), ("staked_at", "0")]);
    assert_eq!(burn_reward_of_account(STAKED_AT, &core_program(), &data, 5), Err(StakingError::NotStaked));
    let data = staked_nft("soon");
    assert_eq!(burn_reward_of_account(STAKED_AT, &core_program(), &data, 5), Err(StakingError::InvalidTimestamp));
}

#[test]
fn lookup_past_the_end_is_refused_before_it_panics() {
    let mut data = staked_nft("1704067200");
    let base_len = asset_bytes([7; 32], 2, Some([9; 32])).len();
    let past_end = (data.len() as u64 + 1).to_le_bytes();
    data[base_len + 1..base_len + 9].copy_from_slice(&past_end);
    assert!(!asset_attributes_are_readable(&core_program(), &data));
    assert_eq!(checked_burn_reward_of_account(STAKED_AT, &core_program(), &data, 5), None);
    // Another owner: the lookup stops before it slices.
    assert!(asset_attributes_are_readable(&Address { bytes: [1; 32] }, &data));
}

#[test]
fn checked_burn_reward_answers_readable_accounts() {
    let data = staked_nft("1704067200");
    assert_eq!(
        checked_burn_reward_of_account(STAKED_AT + DAY, &core_program(), &data, 5),
        Some(Ok(BurnReward { staked_days: 1, amount: 5 }))
    );
}

#[test]
fn begin_burn_reads_asset_then_bonus() {
    let data = staked_nft("1704067200");
    let (asset, reward) = begin_burn(STAKED_AT + 2 * DAY, &core_program(), &data, 3).unwrap().unwrap();
    assert_eq!(asset.owner, Address { bytes: [7; 32] });
    assert_eq!(reward, BurnReward { staked_days: 2, amount: 6 });
    let expected = format!("{}", BaseAssetV1::from_bytes(&[1, 2]).unwrap_err());
    assert_eq!(begin_burn(0, &core_program(), &[1, 2], 3), Some(Err(InstructionError::AccountData(expected))));
    let bare = asset_bytes([7; 32], 2, Some([9; 32]));
    assert_eq!(begin_burn(0, &core_program(), &bare, 3), Some(Err(InstructionError::Staking(StakingError::NotStaked))));
}

#[test]
fn collection_count_is_decremented_through_its_plugin() {
    let data = with_attributes(collection_bytes([4; 32]), &[("rewards_deposited", "12"), ("total_staked", "3")]);
    assert!(collection_attributes_are_readable(&core_program(), &data));
    assert_eq!(
        decrement_collection_total_staked(&core_program(), &data),
        Ok(vec![attr("rewards_deposited", "12"), attr("total_staked", "2")])
    );
    assert_eq!(
        checked_decrement_collection_total_staked(&core_program(), &data),
        Some(Ok(vec![attr("rewards_deposited", "12"), attr("total_staked", "2")]))
    );
}

#[test]
fn collection_without_plugin_is_not_staked() {
    let data = collection_bytes([4; 32]);
    assert_eq!(decrement_collection_total_staked(&core_program(), &data), Err(StakingError::NotStaked));
    assert_eq!(checked_decrement_collection_total_staked(&core_program(), &data), Some(Err(StakingError::NotStaked)));
}

#[test]
fn zero_or_unreadable_count_is_refused_before_it_panics() {
    let data = with_attributes(collection_bytes([4; 32]), &[("total_staked", "0")]);
    assert_eq!(checked_decrement_collection_total_staked(&core_program(), &data), None);
    let data = with_attributes(collection_bytes([4; 32]), &[("total_staked", "lots")]);
    assert_eq!(checked_decrement_collection_total_staked(&core_program(), &data), None);
}

#[test]
fn header_with_unknown_key_byte_means_no_plugin() {
    let mut data = staked_nft("1704067200");
    let base_len = asset_bytes([7; 32], 2, Some([9; 32])).len();
    data[base_len] = 7;
    assert!(asset_attributes_are_readable(&core_program(), &data));
    assert_eq!(burn_reward_of_account(STAKED_AT + DAY, &core_program(), &data, 5), Err(StakingError::NotStaked));
}

#[test]
fn truncated_header_means_no_plugin() {
    let base = asset_bytes([7; 32], 2, Some([9; 32]));
    let mut data = base.clone();
    data.extend_from_slice(&[3, 0, 0, 0]);
    assert!(asset_attributes_are_readable(&core_program(), &data));
    assert_eq!(burn_reward_of_account(STAKED_AT + DAY, &core_program(), &data, 5), Err(StakingError::NotStaked));
}
