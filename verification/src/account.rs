use vstd::prelude::*;

use crate::address::{mpl_core_program_bytes, Address};
use crate::error::InstructionError;
use anchor_lang::prelude::{AccountInfo, Pubkey};
use mpl_core::accounts::{BaseAssetV1, BaseCollectionV1, PluginHeaderV1};
use mpl_core::fetch_plugin;
use mpl_core::types::{Attributes, PluginType, UpdateAuthority as CoreUpdateAuthority};
use mpl_core::PluginRegistryV1Safe;

verus! {

/// Who may update a Metaplex Core asset.
#[derive(Clone, Copy, Debug, PartialEq, Eq)]
pub enum UpdateAuthority {
    /// No one may update the asset.
    Nobody,
    /// The given address may update the asset.
    Address(Address),
    /// The authority of the given collection may update the asset.
    Collection(Address),
}

/// The base of a Metaplex Core asset account (`BaseAssetV1` without its key byte).
#[derive(Clone, Debug, PartialEq, Eq)]
pub struct AssetBase {
    pub owner: Address,
    pub update_authority: UpdateAuthority,
    pub name: String,
    pub uri: String,
    pub seq: Option<u64>,
}

/// The base of a Metaplex Core collection account (`BaseCollectionV1` without its key byte).
#[derive(Clone, Debug, PartialEq, Eq)]
pub struct CollectionBase {
    pub update_authority: Address,
    pub name: String,
    pub uri: String,
    pub num_minted: u32,
    pub current_size: u32,
}

/// An attribute of a Metaplex Core `Attributes` plugin.
#[derive(Clone, Debug, PartialEq, Eq)]
pub struct Attribute {
    pub key: String,
    pub value: String,
}

impl View for Attribute {
    type V = (Seq<char>, Seq<char>);

    open spec fn view(&self) -> (Seq<char>, Seq<char>) {
        (self.key@, self.value@)
    }
}

/// An attribute list as (key, value) character sequences.
pub open spec fn attributes_view(attrs: Seq<Attribute>) -> Seq<(Seq<char>, Seq<char>)> {
    attrs.map_values(|a: Attribute| a@)
}

/// Key byte of an asset account.
pub const ASSET_KEY: u8 = 1;

/// Key byte of a collection account.
pub const COLLECTION_KEY: u8 = 5;

/// Registry code of the `Attributes` plugin (`PluginType::Attributes`).
pub const ATTRIBUTES_PLUGIN_TYPE: u8 = 6;

/// What `BaseAssetV1::from_bytes` reads from account data, or the text of its error.
pub uninterp spec fn decoded_asset(data: Seq<u8>) -> Result<AssetBase, Seq<char>>;

/// What `BaseCollectionV1::from_bytes` reads from account data, or the text of its error.
pub uninterp spec fn decoded_collection(data: Seq<u8>) -> Result<CollectionBase, Seq<char>>;

/// The `u64` whose little-endian bytes are `b[0..8]`.
pub open spec fn le_u64(b: Seq<u8>) -> int {
    b[0] + b[1] * 0x100 + b[2] * 0x1_0000 + b[3] * 0x100_0000 + b[4] * 0x1_0000_0000 + b[5]
        * 0x100_0000_0000 + b[6] * 0x1_0000_0000_0000 + b[7] * 0x100_0000_0000_0000
}

/// The plugin registry offset that `PluginHeaderV1::from_bytes` reads: a key byte naming
/// one of the seven `Key` variants, then the offset as a little-endian `u64`; `None` where
/// the bytes are fewer than nine or the key byte names no variant.
pub open spec fn decoded_plugin_header(bytes: Seq<u8>) -> Option<u64> {
    if bytes.len() >= 9 && bytes[0] < 7 {
        Some(le_u64(bytes.subrange(1, 9)) as u64)
    } else {
        None
    }
}

/// The (plugin type, offset) records that `PluginRegistryV1Safe::from_bytes` reads, or
/// `None` where it fails.
pub uninterp spec fn decoded_plugin_registry(bytes: Seq<u8>) -> Option<Seq<(u8, u64)>>;

/// The attributes that `fetch_plugin::<BaseAssetV1, Attributes>` finds on an account with
/// this owner and data, or `None` where it fails.
pub uninterp spec fn decoded_asset_attributes(owner: Seq<u8>, data: Seq<u8>) -> Option<
    Seq<(Seq<char>, Seq<char>)>,
>;

/// The attributes that `fetch_plugin::<BaseCollectionV1, Attributes>` finds on an account
/// with this owner and data, or `None` where it fails.
pub uninterp spec fn decoded_collection_attributes(owner: Seq<u8>, data: Seq<u8>) -> Option<
    Seq<(Seq<char>, Seq<char>)>,
>;

/// Number of bytes of the UTF-8 encoding of `s`, as `str::len` reports it.
pub open spec fn utf8_len(s: Seq<char>) -> nat {
    (vstd::utf8::encode_utf8(s).len() as usize) as nat
}

/// `DataBlob::len` of an asset base: the length of its Borsh encoding.
pub open spec fn asset_len(a: AssetBase) -> nat {
    43 + utf8_len(a.name@) + utf8_len(a.uri@) + (if a.update_authority is Nobody {
        0nat
    } else {
        32nat
    }) + (if a.seq is Some {
        8nat
    } else {
        0nat
    })
}

/// `DataBlob::len` of a collection base: the length of its Borsh encoding.
pub open spec fn collection_len(c: CollectionBase) -> nat {
    49 + utf8_len(c.name@) + utf8_len(c.uri@)
}

/// Offset of the first registry record of the given plugin type.
pub open spec fn first_record_offset(records: Seq<(u8, u64)>, plugin_type: u8) -> Option<u64>
    decreases records.len(),
{
    if records.len() == 0 {
        None
    } else if records[0].0 == plugin_type {
        Some(records[0].1)
    } else {
        first_record_offset(records.drop_first(), plugin_type)
    }
}

/// After a base of `base_len` bytes, every offset that `fetch_plugin` slices `data` at
/// lies within `data`: the registry offset of the plugin header and the offset of the
/// first record of `plugin_type`.
pub open spec fn plugin_offsets_in_bounds(data: Seq<u8>, base_len: nat, plugin_type: u8) -> bool {
    &&& base_len <= data.len()
    &&& base_len < data.len() ==> match decoded_plugin_header(
        data.subrange(base_len as int, data.len() as int),
    ) {
        None => true,
        Some(o) => o <= data.len() && match decoded_plugin_registry(
            data.subrange(o as int, data.len() as int),
        ) {
            None => true,
            Some(records) => match first_record_offset(records, plugin_type) {
                None => true,
                Some(offset) => offset <= data.len(),
            },
        },
    }
}

/// `fetch_plugin::<BaseAssetV1, Attributes>` returns, without panicking, on an account with
/// this owner and data.
pub open spec fn asset_attributes_readable(owner: Seq<u8>, data: Seq<u8>) -> bool {
    (data.len() > 0 && data[0] == ASSET_KEY && owner == mpl_core_program_bytes()) ==> match decoded_asset(
        data,
    ) {
        Err(_) => true,
        Ok(a) => plugin_offsets_in_bounds(data, asset_len(a), ATTRIBUTES_PLUGIN_TYPE),
    }
}

/// `fetch_plugin::<BaseCollectionV1, Attributes>` returns, without panicking, on an account
/// with this owner and data.
pub open spec fn collection_attributes_readable(owner: Seq<u8>, data: Seq<u8>) -> bool {
    (data.len() > 0 && data[0] == COLLECTION_KEY && owner == mpl_core_program_bytes()) ==> match decoded_collection(
        data,
    ) {
        Err(_) => true,
        Ok(c) => plugin_offsets_in_bounds(data, collection_len(c), ATTRIBUTES_PLUGIN_TYPE),
    }
}

/// The plugin lookup on an asset account can only panic on an account of the Metaplex Core
/// program, starting with the asset key byte, whose base reads and is followed by more data.
pub proof fn law_asset_lookup_panics_only_past_a_base(owner: Seq<u8>, data: Seq<u8>)
    ensures
        owner != mpl_core_program_bytes() ==> asset_attributes_readable(owner, data),
        data.len() == 0 ==> asset_attributes_readable(owner, data),
        data.len() > 0 && data[0] != 1 ==> asset_attributes_readable(owner, data),
        decoded_asset(data) is Err ==> asset_attributes_readable(owner, data),
        decoded_asset(data) matches Ok(a) && asset_len(a) == data.len()
            ==> asset_attributes_readable(owner, data),
{
}

/// The plugin lookup on a collection account can only panic on an account of the Metaplex
/// Core program, starting with the collection key byte, whose base reads and is followed by
/// more data.
pub proof fn law_collection_lookup_panics_only_past_a_base(owner: Seq<u8>, data: Seq<u8>)
    ensures
        owner != mpl_core_program_bytes() ==> collection_attributes_readable(owner, data),
        data.len() == 0 ==> collection_attributes_readable(owner, data),
        data.len() > 0 && data[0] != 5 ==> collection_attributes_readable(owner, data),
        decoded_collection(data) is Err ==> collection_attributes_readable(owner, data),
        decoded_collection(data) matches Ok(c) && collection_len(c) == data.len()
            ==> collection_attributes_readable(owner, data),
{
}

/// Calls `BaseAssetV1::from_bytes` (a Borsh read of the account's leading bytes) and keeps
/// its fields but the key, or the text of its error. The contract claims only that the
/// result is a function of the bytes, named `decoded_asset`; the layout is not stated.
#[verifier::external_body]
fn base_asset_from_bytes(data: &[u8]) -> (asset: Result<AssetBase, String>)
    ensures
        match asset {
            Ok(a) => decoded_asset(data@) == Ok::<AssetBase, Seq<char>>(a),
            Err(e) => decoded_asset(data@) == Err::<AssetBase, Seq<char>>(e@),
        },
{
    let base = BaseAssetV1::from_bytes(data).map_err(|e| format!("{e}"))?;
    let update_authority = match base.update_authority {
        CoreUpdateAuthority::None => UpdateAuthority::Nobody,
        CoreUpdateAuthority::Address(key) => UpdateAuthority::Address(Address { bytes: key.to_bytes() }),
        CoreUpdateAuthority::Collection(key) => UpdateAuthority::Collection(Address { bytes: key.to_bytes() }),
    };
    let owner = Address { bytes: base.owner.to_bytes() };
    Ok(AssetBase { owner, update_authority, name: base.name, uri: base.uri, seq: base.seq })
}

/// Calls `BaseCollectionV1::from_bytes` (a Borsh read of the account's leading bytes) and
/// keeps its fields but the key, or the text of its error. The contract claims only that
/// the result is a function of the bytes, named `decoded_collection`; the layout is not
/// stated.
#[verifier::external_body]
fn base_collection_from_bytes(data: &[u8]) -> (collection: Result<CollectionBase, String>)
    ensures
        match collection {
            Ok(c) => decoded_collection(data@) == Ok::<CollectionBase, Seq<char>>(c),
            Err(e) => decoded_collection(data@) == Err::<CollectionBase, Seq<char>>(e@),
        },
{
    let base = BaseCollectionV1::from_bytes(data).map_err(|e| format!("{e}"))?;
    let update_authority = Address { bytes: base.update_authority.to_bytes() };
    let (name, uri, num_minted, current_size) = (base.name, base.uri, base.num_minted, base.current_size);
    Ok(CollectionBase { update_authority, name, uri, num_minted, current_size })
}

/// Calls `PluginHeaderV1::from_bytes` (a Borsh read of a `Key` and a `u64`) on
/// `data[start..]` and keeps the plugin registry offset.
#[verifier::external_body]
fn plugin_header_at(data: &[u8], start: usize) -> (registry_offset: Option<u64>)
    requires
        start <= data@.len(),
    ensures
        registry_offset == decoded_plugin_header(data@.subrange(start as int, data@.len() as int)),
{
    PluginHeaderV1::from_bytes(&data[start..]).ok().map(|header| header.plugin_registry_offset)
}

/// Calls `PluginRegistryV1Safe::from_bytes` on `data[start..]` and keeps the plugin type
/// and offset of each record of its (internal) registry. The contract claims only that the
/// result is a function of those bytes, named `decoded_plugin_registry`.
#[verifier::external_body]
fn plugin_registry_at(data: &[u8], start: usize) -> (records: Option<Vec<(u8, u64)>>)
    requires
        start <= data@.len(),
    ensures
        match records {
            Some(r) => decoded_plugin_registry(data@.subrange(start as int, data@.len() as int))
                == Some(r@),
            None => decoded_plugin_registry(data@.subrange(start as int, data@.len() as int))
                is None,
        },
{
    let registry = PluginRegistryV1Safe::from_bytes(&data[start..]).ok()?;
    Some(registry.registry.iter().map(|record| (record.plugin_type, record.offset)).collect())
}

/// Calls `fetch_plugin::<BaseAssetV1, Attributes>(account, PluginType::Attributes)` on an
/// account with the given owner and a copy of the given data, and keeps the attribute list.
/// `fetch_plugin` panics where an offset it slices the data at lies past the end; the
/// requires leaves exactly those accounts out. The contract claims only that the result is
/// a function of owner and data, named `decoded_asset_attributes`.
#[verifier::external_body]
pub(crate) fn asset_attributes_from_account(owner: &Address, data: &[u8]) -> (attrs: Option<Vec<Attribute>>)
    requires
        asset_attributes_readable(owner@, data@),
    ensures
        match attrs {
            Some(v) => decoded_asset_attributes(owner@, data@) == Some(attributes_view(v@)),
            None => decoded_asset_attributes(owner@, data@) is None,
        },
{
    let (program, key, mut lamports, mut bytes) = (Pubkey::new_from_array(owner.bytes), Pubkey::default(), 0u64, data.to_vec());
    let account = AccountInfo::new(&key, false, false, &mut lamports, &mut bytes, &program, false, 0);
    let (_, found, _) = fetch_plugin::<BaseAssetV1, Attributes>(&account, PluginType::Attributes).ok()?;
    Some(found.attribute_list.into_iter().map(|a| Attribute { key: a.key, value: a.value }).collect())
}

/// Calls `fetch_plugin::<BaseCollectionV1, Attributes>(account, PluginType::Attributes)` on
/// an account with the given owner and a copy of the given data, and keeps the attribute
/// list. `fetch_plugin` panics where an offset it slices the data at lies past the end; the
/// requires leaves exactly those accounts out. The contract claims only that the result is
/// a function of owner and data, named `decoded_collection_attributes`.
#[verifier::external_body]
pub(crate) fn collection_attributes_from_account(owner: &Address, data: &[u8]) -> (attrs: Option<Vec<Attribute>>)
    requires
        collection_attributes_readable(owner@, data@),
    ensures
        match attrs {
            Some(v) => decoded_collection_attributes(owner@, data@) == Some(attributes_view(v@)),
            None => decoded_collection_attributes(owner@, data@) is None,
        },
{
    let (program, key, mut lamports, mut bytes) = (Pubkey::new_from_array(owner.bytes), Pubkey::default(), 0u64, data.to_vec());
    let account = AccountInfo::new(&key, false, false, &mut lamports, &mut bytes, &program, false, 0);
    let (_, found, _) = fetch_plugin::<BaseCollectionV1, Attributes>(&account, PluginType::Attributes).ok()?;
    Some(found.attribute_list.into_iter().map(|a| Attribute { key: a.key, value: a.value }).collect())
}

/// Reads the base of an asset account; where the bytes are no asset, fails with
/// `AccountData` carrying the text of the read error.
pub fn read_asset(data: &[u8]) -> (asset: Result<AssetBase, InstructionError>)
    ensures
        match decoded_asset(data@) {
            Ok(a) => asset == Ok::<AssetBase, InstructionError>(a),
            Err(m) => asset matches Err(InstructionError::AccountData(e)) && e@ == m,
        },
{
    match base_asset_from_bytes(data) {
        Ok(a) => Ok(a),
        Err(e) => Err(InstructionError::AccountData(e)),
    }
}

/// Reads the base of a collection account; where the bytes are no collection, fails with
/// `AccountData` carrying the text of the read error.
pub fn read_collection(data: &[u8]) -> (collection: Result<CollectionBase, InstructionError>)
    ensures
        match decoded_collection(data@) {
            Ok(c) => collection == Ok::<CollectionBase, InstructionError>(c),
            Err(m) => collection matches Err(InstructionError::AccountData(e)) && e@ == m,
        },
{
    match base_collection_from_bytes(data) {
        Ok(c) => Ok(c),
        Err(e) => Err(InstructionError::AccountData(e)),
    }
}

/// `DataBlob::len` of an asset base, as a `u128` so that it cannot overflow.
fn asset_encoded_len(a: &AssetBase) -> (len: u128)
    ensures
        len == asset_len(*a),
{
    let authority: u128 = match a.update_authority {
        UpdateAuthority::Nobody => 0,
        _ => 32,
    };
    let seq: u128 = match a.seq {
        Some(_) => 8,
        None => 0,
    };
    43 + (a.name.as_str().len() as u128) + (a.uri.as_str().len() as u128) + authority + seq
}

/// `DataBlob::len` of a collection base, as a `u128` so that it cannot overflow.
fn collection_encoded_len(c: &CollectionBase) -> (len: u128)
    ensures
        len == collection_len(*c),
{
    49 + (c.name.as_str().len() as u128) + (c.uri.as_str().len() as u128)
}

/// Offset of the first record of the given plugin type.
fn first_offset(records: &Vec<(u8, u64)>, plugin_type: u8) -> (offset: Option<u64>)
    ensures
        offset == first_record_offset(records@, plugin_type),
{
    let n = records.len();
    let mut i: usize = 0;
    assert(records@.subrange(0, n as int) =~= records@);
    while i < n
        invariant
            n == records@.len(),
            0 <= i <= n,
            first_record_offset(records@, plugin_type) == first_record_offset(
                records@.subrange(i as int, n as int),
                plugin_type,
            ),
        decreases n - i,
    {
        let ghost rest = records@.subrange(i as int, n as int);
        assert(rest.drop_first() =~= records@.subrange(i + 1, n as int));
        if records[i].0 == plugin_type {
            return Some(records[i].1);
        }
        i = i + 1;
    }
    None
}

/// Whether every offset that `fetch_plugin` slices `data` at, after a base of `base_len`
/// bytes, lies within `data`.
fn offsets_in_bounds(data: &[u8], base_len: u128, plugin_type: u8) -> (ok: bool)
    ensures
        ok == plugin_offsets_in_bounds(data@, base_len as nat, plugin_type),
{
    let n = data.len();
    if base_len > n as u128 {
        return false;
    }
    if base_len == n as u128 {
        return true;
    }
    match plugin_header_at(data, base_len as usize) {
        None => true,
        Some(registry_offset) => {
            if registry_offset > n as u64 {
                return false;
            }
            match plugin_registry_at(data, registry_offset as usize) {
                None => true,
                Some(records) => match first_offset(&records, plugin_type) {
                    None => true,
                    Some(offset) => offset <= n as u64,
                },
            }
        },
    }
}

/// Whether the `Attributes` plugin of an asset account can be looked up without the
/// lookup panicking.
pub fn asset_attributes_are_readable(owner: &Address, data: &[u8]) -> (ok: bool)
    ensures
        ok == asset_attributes_readable(owner@, data@),
{
    if data.len() == 0 || data[0] != ASSET_KEY || !owner.same_as(&Address::mpl_core_program()) {
        return true;
    }
    match base_asset_from_bytes(data) {
        Err(_) => true,
        Ok(a) => offsets_in_bounds(data, asset_encoded_len(&a), ATTRIBUTES_PLUGIN_TYPE),
    }
}

/// Whether the `Attributes` plugin of a collection account can be looked up without the
/// lookup panicking.
pub fn collection_attributes_are_readable(owner: &Address, data: &[u8]) -> (ok: bool)
    ensures
        ok == collection_attributes_readable(owner@, data@),
{
    if data.len() == 0 || data[0] != COLLECTION_KEY || !owner.same_as(
        &Address::mpl_core_program(),
    ) {
        return true;
    }
    match base_collection_from_bytes(data) {
        Err(_) => true,
        Ok(c) => offsets_in_bounds(data, collection_encoded_len(&c), ATTRIBUTES_PLUGIN_TYPE),
    }
}

} // verus!
