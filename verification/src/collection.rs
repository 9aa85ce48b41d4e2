use vstd::prelude::*;

use crate::account::Attribute;
use crate::address::Address;
use crate::burn::total_staked_key;

verus! {

/// The key of a collection's total of deposited rewards.
pub open spec fn rewards_deposited_key() -> Seq<char> {
    seq!['r', 'e', 'w', 'a', 'r', 'd', 's', '_', 'd', 'e', 'p', 'o', 's', 'i', 't', 'e', 'd']
}

/// Check flags of the collection's oracle on transfers: the oracle may reject
/// (bit 2; bit 0 is "may listen", bit 1 "may approve").
pub const TRANSFER_CHECK_FLAGS: u32 = 4;

/// Who holds authority over a plugin.
#[derive(Clone, Copy, Debug, PartialEq, Eq)]
pub enum PluginAuthority {
    /// No one.
    Nobody,
    Owner,
    UpdateAuthority,
    Address(Address),
}

/// Lifecycle events of an asset that an external plugin can be consulted on.
#[derive(Clone, Copy, Debug, PartialEq, Eq, Structural)]
pub enum HookableLifecycleEvent {
    Create,
    Transfer,
    Burn,
    Update,
    Execute,
}

/// Where an oracle account keeps its validation results.
#[derive(Clone, Copy, Debug, PartialEq, Eq, Structural)]
pub enum ValidationResultsOffset {
    NoOffset,
    /// Right after an Anchor account discriminator.
    Anchor,
    Custom(u64),
}

/// A seed of a program address that an external plugin derives.
#[derive(Clone, Debug, PartialEq, Eq)]
pub enum Seed {
    Collection,
    Owner,
    Recipient,
    Asset,
    Address(Address),
    Bytes(Vec<u8>),
}

/// An account that an external plugin's base address is derived from or passed with.
#[derive(Clone, Debug, PartialEq, Eq)]
pub enum ExtraAccount {
    PreconfiguredProgram { is_signer: bool, is_writable: bool },
    PreconfiguredCollection { is_signer: bool, is_writable: bool },
    PreconfiguredOwner { is_signer: bool, is_writable: bool },
    PreconfiguredRecipient { is_signer: bool, is_writable: bool },
    PreconfiguredAsset { is_signer: bool, is_writable: bool },
    CustomPda {
        seeds: Vec<Seed>,
        custom_program_id: Option<Address>,
        is_signer: bool,
        is_writable: bool,
    },
    Address { address: Address, is_signer: bool, is_writable: bool },
}

/// The oracle adapter a staking collection is created with.
#[derive(Clone, Debug, PartialEq, Eq)]
pub struct OracleAdapterInit {
    /// The oracle account.
    pub base_address: Address,
    /// Who may change the adapter (`None`: the default).
    pub init_plugin_authority: Option<PluginAuthority>,
    /// The events the oracle is consulted on, with what it may do on each.
    pub lifecycle_checks: Vec<(HookableLifecycleEvent, u32)>,
    /// How the oracle's address is derived (`None`: it is `base_address` itself).
    pub base_address_config: Option<ExtraAccount>,
    /// Where the oracle keeps its results.
    pub results_offset: Option<ValidationResultsOffset>,
}

/// The plugins a staking collection is created with.
#[derive(Clone, Debug, PartialEq, Eq)]
pub struct CollectionPlugins {
    /// The `Attributes` plugin.
    pub attributes: Vec<Attribute>,
    /// Who holds the `Attributes` plugin.
    pub attributes_authority: Option<PluginAuthority>,
    /// The oracle adapter that validates transfers.
    pub oracle: OracleAdapterInit,
}

/// The plugins of a new staking collection whose oracle lives at `oracle`: attributes
/// `rewards_deposited = "0"` and `total_staked = "0"` held by the update authority, and the
/// oracle consulted on transfers, allowed to reject them, with its results right after the
/// Anchor discriminator, its address taken as it is.
pub fn create_collection_plugins(oracle: &Address) -> (plugins: CollectionPlugins)
    ensures
        plugins.attributes@.len() == 2,
        plugins.attributes@[0].key@ == rewards_deposited_key(),
        plugins.attributes@[0].value@ == seq!['0'],
        plugins.attributes@[1].key@ == total_staked_key(),
        plugins.attributes@[1].value@ == seq!['0'],
        plugins.attributes_authority == Some(PluginAuthority::UpdateAuthority),
        plugins.oracle.base_address == *oracle,
        plugins.oracle.init_plugin_authority is None,
        plugins.oracle.lifecycle_checks@ == seq![
            (HookableLifecycleEvent::Transfer, TRANSFER_CHECK_FLAGS),
        ],
        plugins.oracle.base_address_config is None,
        plugins.oracle.results_offset == Some(ValidationResultsOffset::Anchor),
{
    proof {
        reveal_strlit("rewards_deposited");
        reveal_strlit("total_staked");
        reveal_strlit("0");
    }
    let mut attributes: Vec<Attribute> = Vec::new();
    attributes.push(
        Attribute { key: String::from_str("rewards_deposited"), value: String::from_str("0") },
    );
    attributes.push(
        Attribute { key: String::from_str("total_staked"), value: String::from_str("0") },
    );
    assert(attributes@[0].key@ =~= rewards_deposited_key());
    assert(attributes@[1].key@ =~= total_staked_key());
    assert(attributes@[0].value@ =~= seq!['0']);
    assert(attributes@[1].value@ =~= seq!['0']);
    let mut lifecycle_checks: Vec<(HookableLifecycleEvent, u32)> = Vec::new();
    lifecycle_checks.push((HookableLifecycleEvent::Transfer, TRANSFER_CHECK_FLAGS));
    assert(lifecycle_checks@ =~= seq![(HookableLifecycleEvent::Transfer, TRANSFER_CHECK_FLAGS)]);
    CollectionPlugins {
        attributes,
        attributes_authority: Some(PluginAuthority::UpdateAuthority),
        oracle: OracleAdapterInit {
            base_address: *oracle,
            init_plugin_authority: None,
            lifecycle_checks,
            base_address_config: None,
            results_offset: Some(ValidationResultsOffset::Anchor),
        },
    }
}

} // verus!
