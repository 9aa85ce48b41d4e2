use vstd::prelude::*;

use crate::account::{
    asset_attributes_are_readable, asset_attributes_from_account, asset_attributes_readable,
    attributes_view, collection_attributes_are_readable, collection_attributes_from_account,
    collection_attributes_readable, decoded_asset_attributes, decoded_collection_attributes,
    decoded_asset, read_asset, AssetBase, Attribute, UpdateAuthority,
};
use crate::address::Address;
use crate::constants::SECONDS_IN_A_DAY;
use crate::error::{InstructionError, StakingError};
use crate::market::trunc_div;
use crate::text::{
    decimal_chars, law_written_count_reads_back, parse_i64, parse_u32, parsed_i64, parsed_u32,
    str_eq, u32_to_string,
};

verus! {

/// An attribute list as (key, value) pairs of character sequences.
pub type AttributePairs = Seq<(Seq<char>, Seq<char>)>;

/// The key that marks an asset as staked.
pub open spec fn staked_key() -> Seq<char> {
    seq!['s', 't', 'a', 'k', 'e', 'd']
}

/// The key that holds the Unix timestamp at which an asset was staked.
pub open spec fn staked_at_key() -> Seq<char> {
    seq!['s', 't', 'a', 'k', 'e', 'd', '_', 'a', 't']
}

/// The key of a collection's count of staked assets.
pub open spec fn total_staked_key() -> Seq<char> {
    seq!['t', 'o', 't', 'a', 'l', '_', 's', 't', 'a', 'k', 'e', 'd']
}

/// The value that marks an asset as staked.
pub open spec fn true_value() -> Seq<char> {
    seq!['t', 'r', 'u', 'e']
}

/// The value of the last attribute in `attrs` whose key is `key`.
pub open spec fn last_value(attrs: AttributePairs, key: Seq<char>) -> Option<Seq<char>>
    decreases attrs.len(),
{
    if attrs.len() == 0 {
        None
    } else if attrs.last().0 == key {
        Some(attrs.last().1)
    } else {
        last_value(attrs.drop_last(), key)
    }
}

/// A number of days taken as a `u64` the way `as u64` does: a negative count wraps around.
pub open spec fn wrapping_u64(x: int) -> int {
    if x >= 0 {
        x
    } else {
        x + 0x1_0000_0000_0000_0000
    }
}

/// What burning a staked asset pays: the whole days it was staked, and the bonus.
#[derive(Clone, Copy, Debug, PartialEq, Eq, Structural)]
pub struct BurnReward {
    /// Whole days, rounded toward zero, from the staking time to now.
    pub staked_days: i64,
    /// The bonus in reward tokens: days times the configured burn reward.
    pub amount: u64,
}

/// The bonus for burning an asset with the given attributes at time `now`, or the error
/// the burn fails with before anything is burnt.
pub open spec fn burn_reward_spec(now: i64, attrs: AttributePairs, burn_rewards: u32) -> Result<
    BurnReward,
    StakingError,
> {
    if last_value(attrs, staked_key()) != Some(true_value()) {
        Err(StakingError::NotStaked)
    } else {
        match last_value(attrs, staked_at_key()) {
            None => Err(StakingError::InvalidTimestamp),
            Some(text) => match parsed_i64(text) {
                None => Err(StakingError::InvalidTimestamp),
                Some(staked_at) => {
                    let elapsed = now - staked_at;
                    if elapsed < i64::MIN || elapsed > i64::MAX {
                        Err(StakingError::InvalidTimestamp)
                    } else {
                        let days = trunc_div(elapsed, SECONDS_IN_A_DAY as int);
                        let amount = wrapping_u64(days) * burn_rewards;
                        if amount > u64::MAX {
                            Err(StakingError::Overflow)
                        } else {
                            Ok(BurnReward { staked_days: days as i64, amount: amount as u64 })
                        }
                    }
                },
            },
        }
    }
}

/// The value of the attribute at the recorded index, if one was recorded.
spec fn last_index_value(attrs: AttributePairs, found: Option<usize>) -> Option<Seq<char>> {
    match found {
        Some(j) => Some(attrs[j as int].1),
        None => None,
    }
}

/// Scanning one more attribute: its value becomes the last value of its key.
proof fn lemma_last_value_step(attrs: AttributePairs, i: int, key: Seq<char>)
    requires
        0 <= i < attrs.len(),
    ensures
        last_value(attrs.subrange(0, i + 1), key) == if attrs[i].0 == key {
            Some(attrs[i].1)
        } else {
            last_value(attrs.subrange(0, i), key)
        },
{
    assert(attrs.subrange(0, i + 1).drop_last() =~= attrs.subrange(0, i));
}

/// Computes the burn bonus of a staked asset from its attributes: it must be marked
/// `staked = "true"` and carry a readable `staked_at` timestamp; the bonus is the number
/// of whole days since then times `burn_rewards`.
pub fn burn_reward(now: i64, attributes: &Vec<Attribute>, burn_rewards: u32) -> (reward: Result<
    BurnReward,
    StakingError,
>)
    ensures
        reward == burn_reward_spec(now, attributes_view(attributes@), burn_rewards),
{
    let ghost attrs = attributes_view(attributes@);
    proof {
        reveal_strlit("staked");
        reveal_strlit("staked_at");
        reveal_strlit("true");
        assert("staked"@ =~= staked_key());
        assert("staked_at"@ =~= staked_at_key());
        assert("true"@ =~= true_value());
        assert(staked_key().len() != staked_at_key().len());
    }
    let mut staked: Option<usize> = None;
    let mut staked_at: Option<usize> = None;
    let n = attributes.len();
    let mut i: usize = 0;
    while i < n
        invariant
            n == attrs.len(),
            attrs == attributes_view(attributes@),
            0 <= i <= n,
            "staked"@ == staked_key(),
            "staked_at"@ == staked_at_key(),
            staked matches Some(j) ==> j < i,
            staked_at matches Some(j) ==> j < i,
            last_index_value(attrs, staked) == last_value(attrs.subrange(0, i as int), staked_key()),
            last_index_value(attrs, staked_at) == last_value(
                attrs.subrange(0, i as int),
                staked_at_key(),
            ),
        decreases n - i,
    {
        proof {
            lemma_last_value_step(attrs, i as int, staked_key());
            lemma_last_value_step(attrs, i as int, staked_at_key());
            assert(staked_key().len() != staked_at_key().len());
        }
        let key = attributes[i].key.as_str();
        if str_eq(key, "staked") {
            staked = Some(i);
        } else if str_eq(key, "staked_at") {
            staked_at = Some(i);
        }
        i = i + 1;
    }
    assert(attrs.subrange(0, n as int) =~= attrs);
    let is_staked = match staked {
        Some(j) => str_eq(attributes[j].value.as_str(), "true"),
        None => false,
    };
    if !is_staked {
        return Err(StakingError::NotStaked);
    }
    let staked_at_timestamp = match staked_at {
        Some(j) => match parse_i64(attributes[j].value.as_str()) {
            Some(t) => t,
            None => {
                return Err(StakingError::InvalidTimestamp);
            },
        },
        None => {
            return Err(StakingError::InvalidTimestamp);
        },
    };
    let elapsed_seconds = match now.checked_sub(staked_at_timestamp) {
        Some(e) => e,
        None => {
            return Err(StakingError::InvalidTimestamp);
        },
    };
    let staked_days = match elapsed_seconds.checked_div(SECONDS_IN_A_DAY) {
        Some(d) => d,
        None => {
            return Err(StakingError::InvalidTimestamp);
        },
    };
    // The day count taken as a `u64`, wrapping around below zero as `as u64` does.
    let days_as_u64: u64 = if staked_days >= 0 {
        staked_days as u64
    } else {
        u64::MAX - ((-(staked_days + 1)) as u64)
    };
    let amount = match days_as_u64.checked_mul(burn_rewards as u64) {
        Some(a) => a,
        None => {
            return Err(StakingError::Overflow);
        },
    };
    Ok(BurnReward { staked_days, amount })
}

/// Every `total_staked` entry holds a count that `str::parse::<u32>` reads and that is
/// at least one, so that it can be decremented.
pub open spec fn total_staked_decrementable(attrs: AttributePairs) -> bool {
    forall|i: int|
        0 <= i < attrs.len() && (#[trigger] attrs[i]).0 == total_staked_key() ==> (parsed_u32(
            attrs[i].1,
        ) matches Some(n) && n >= 1)
}

/// The value an attribute holds once one staked asset has left the collection: a
/// `total_staked` count one lower, any other value unchanged.
pub open spec fn decremented_value(a: (Seq<char>, Seq<char>)) -> Seq<char> {
    if a.0 == total_staked_key() {
        decimal_chars((parsed_u32(a.1).unwrap() - 1) as nat)
    } else {
        a.1
    }
}

/// The attribute list once one staked asset has left the collection.
pub open spec fn decremented(attrs: AttributePairs) -> AttributePairs {
    attrs.map_values(|a: (Seq<char>, Seq<char>)| (a.0, decremented_value(a)))
}

/// The attribute list of a collection after one of its staked assets has been burnt: the
/// same keys in the same order, each `total_staked` count lowered by one.
pub fn decrement_total_staked(attributes: &Vec<Attribute>) -> (updated: Vec<Attribute>)
    requires
        total_staked_decrementable(attributes_view(attributes@)),
    ensures
        attributes_view(updated@) == decremented(attributes_view(attributes@)),
{
    proof {
        reveal_strlit("total_staked");
        assert("total_staked"@ =~= total_staked_key());
    }
    let n = attributes.len();
    let mut updated: Vec<Attribute> = Vec::with_capacity(n);
    let mut i: usize = 0;
    while i < n
        invariant
            n == attributes@.len(),
            0 <= i <= n,
            "total_staked"@ == total_staked_key(),
            total_staked_decrementable(attributes_view(attributes@)),
            updated@.len() == i,
            forall|j: int|
                0 <= j < i ==> (#[trigger] updated@[j])@ == (
                attributes@[j].key@,
                decremented_value(attributes@[j]@),
            ),
        decreases n - i,
    {
        let attribute = &attributes[i];
        if str_eq(attribute.key.as_str(), "total_staked") {
            assert(attributes@[i as int].key@ == total_staked_key());
            assert(attributes_view(attributes@)[i as int] == attributes@[i as int]@);
            let total_staked = match parse_u32(attribute.value.as_str()) {
                Some(t) => t,
                None => 0,
            };
            let new_total_staked = total_staked - 1;
            updated.push(
                Attribute {
                    key: String::from_str("total_staked"),
                    value: u32_to_string(new_total_staked),
                },
            );
        } else {
            updated.push(Attribute { key: attribute.key.clone(), value: attribute.value.clone() });
        }
        i = i + 1;
    }
    assert(attributes_view(updated@) =~= decremented(attributes_view(attributes@)));
    updated
}

/// What burning reads from the asset account: `NotStaked` where the account carries no
/// `Attributes` plugin, else the bonus its attributes give.
pub open spec fn account_burn_reward_spec(
    now: i64,
    owner: Seq<u8>,
    data: Seq<u8>,
    burn_rewards: u32,
) -> Result<BurnReward, StakingError> {
    match decoded_asset_attributes(owner, data) {
        None => Err(StakingError::NotStaked),
        Some(attrs) => burn_reward_spec(now, attrs, burn_rewards),
    }
}

/// The burn bonus of the asset account with the given owner and data: its `Attributes`
/// plugin is looked up (`NotStaked` where there is none) and `burn_reward` applied to it.
pub fn burn_reward_of_account(
    now: i64,
    nft_owner: &Address,
    nft_data: &[u8],
    burn_rewards: u32,
) -> (reward: Result<BurnReward, StakingError>)
    requires
        asset_attributes_readable(nft_owner@, nft_data@),
    ensures
        reward == account_burn_reward_spec(now, nft_owner@, nft_data@, burn_rewards),
{
    match asset_attributes_from_account(nft_owner, nft_data) {
        None => Err(StakingError::NotStaked),
        Some(attributes) => burn_reward(now, &attributes, burn_rewards),
    }
}

/// `burn_reward_of_account` where the plugin lookup does not panic; `None` on the asset
/// accounts where it would.
pub fn checked_burn_reward_of_account(
    now: i64,
    nft_owner: &Address,
    nft_data: &[u8],
    burn_rewards: u32,
) -> (reward: Option<Result<BurnReward, StakingError>>)
    ensures
        reward == if asset_attributes_readable(nft_owner@, nft_data@) {
            Some(account_burn_reward_spec(now, nft_owner@, nft_data@, burn_rewards))
        } else {
            None
        },
{
    if asset_attributes_are_readable(nft_owner, nft_data) {
        Some(burn_reward_of_account(now, nft_owner, nft_data, burn_rewards))
    } else {
        None
    }
}

/// The first step of burning a staked asset, before anything is burnt: read the asset
/// account (failing with the read error), then its `Attributes` plugin and the bonus it
/// gives. `None` on the asset accounts where the plugin lookup would panic.
pub fn begin_burn(now: i64, nft_owner: &Address, nft_data: &[u8], burn_rewards: u32) -> (begun:
    Option<Result<(AssetBase, BurnReward), InstructionError>>)
    ensures
        match decoded_asset(nft_data@) {
            Err(m) => begun matches Some(Err(InstructionError::AccountData(e))) && e@ == m,
            Ok(a) => begun == if asset_attributes_readable(nft_owner@, nft_data@) {
                Some(
                    match account_burn_reward_spec(now, nft_owner@, nft_data@, burn_rewards) {
                        Ok(r) => Ok((a, r)),
                        Err(e) => Err(InstructionError::Staking(e)),
                    },
                )
            } else {
                None
            },
        },
{
    let asset = match read_asset(nft_data) {
        Ok(a) => a,
        Err(e) => {
            return Some(Err(e));
        },
    };
    match checked_burn_reward_of_account(now, nft_owner, nft_data, burn_rewards) {
        None => None,
        Some(Ok(reward)) => Some(Ok((asset, reward))),
        Some(Err(e)) => Some(Err(InstructionError::Staking(e))),
    }
}

/// Whether every `total_staked` count of the list can be decremented.
pub fn total_staked_counts_decrementable(attributes: &Vec<Attribute>) -> (ok: bool)
    ensures
        ok == total_staked_decrementable(attributes_view(attributes@)),
{
    proof {
        reveal_strlit("total_staked");
        assert("total_staked"@ =~= total_staked_key());
    }
    let ghost attrs = attributes_view(attributes@);
    let n = attributes.len();
    let mut i: usize = 0;
    while i < n
        invariant
            n == attributes@.len(),
            attrs == attributes_view(attributes@),
            0 <= i <= n,
            "total_staked"@ == total_staked_key(),
            forall|j: int|
                0 <= j < i && (#[trigger] attrs[j]).0 == total_staked_key() ==> (parsed_u32(
                    attrs[j].1,
                ) matches Some(c) && c >= 1),
        decreases n - i,
    {
        assert(attrs[i as int] == attributes@[i as int]@);
        if str_eq(attributes[i].key.as_str(), "total_staked") {
            match parse_u32(attributes[i].value.as_str()) {
                Some(count) => {
                    if count < 1 {
                        return false;
                    }
                },
                None => {
                    return false;
                },
            }
        }
        i = i + 1;
    }
    true
}

/// What the collection's `Attributes` plugin becomes once a staked asset is burnt:
/// `NotStaked` where the account carries no such plugin, else each `total_staked` count
/// lowered by one.
pub fn decrement_collection_total_staked(owner: &Address, data: &[u8]) -> (updated: Result<
    Vec<Attribute>,
    StakingError,
>)
    requires
        collection_attributes_readable(owner@, data@),
        decoded_collection_attributes(owner@, data@) matches Some(attrs)
            ==> total_staked_decrementable(attrs),
    ensures
        match decoded_collection_attributes(owner@, data@) {
            None => updated == Err::<Vec<Attribute>, StakingError>(StakingError::NotStaked),
            Some(attrs) => updated matches Ok(v) && attributes_view(v@) == decremented(attrs),
        },
{
    match collection_attributes_from_account(owner, data) {
        None => Err(StakingError::NotStaked),
        Some(attributes) => Ok(decrement_total_staked(&attributes)),
    }
}

/// `decrement_collection_total_staked` where it does not panic; `None` on the collection
/// accounts where the plugin lookup would panic or a `total_staked` count cannot be
/// decremented.
pub fn checked_decrement_collection_total_staked(owner: &Address, data: &[u8]) -> (updated: Option<
    Result<Vec<Attribute>, StakingError>,
>)
    ensures
        !collection_attributes_readable(owner@, data@) ==> updated is None,
        collection_attributes_readable(owner@, data@) ==> match decoded_collection_attributes(
            owner@,
            data@,
        ) {
            None => updated == Some(Err::<Vec<Attribute>, StakingError>(StakingError::NotStaked)),
            Some(attrs) => if total_staked_decrementable(attrs) {
                updated matches Some(Ok(v)) && attributes_view(v@) == decremented(attrs)
            } else {
                updated is None
            },
        },
{
    if !collection_attributes_are_readable(owner, data) {
        return None;
    }
    match collection_attributes_from_account(owner, data) {
        None => Some(Err(StakingError::NotStaked)),
        Some(attributes) => {
            if total_staked_counts_decrementable(&attributes) {
                Some(decrement_collection_total_staked(owner, data))
            } else {
                None
            }
        },
    }
}

/// The checks that close a burn: at least one whole day staked, the signer owns the
/// asset, and the asset's update authority is the collection.
pub fn check_burn_authority(
    staked_days: i64,
    asset: &AssetBase,
    user: &Address,
    collection: &Address,
) -> (checked: Result<(), StakingError>)
    ensures
        checked == if staked_days <= 0 {
            Err(StakingError::FreezePeriodNotElapsed)
        } else if asset.owner != *user {
            Err(StakingError::InvalidOwner)
        } else if asset.update_authority != UpdateAuthority::Collection(*collection) {
            Err(StakingError::InvalidAuthority)
        } else {
            Ok(())
        },
{
    if staked_days <= 0 {
        return Err(StakingError::FreezePeriodNotElapsed);
    }
    if !asset.owner.same_as(user) {
        return Err(StakingError::InvalidOwner);
    }
    match &asset.update_authority {
        UpdateAuthority::Collection(c) => {
            if !c.same_as(collection) {
                return Err(StakingError::InvalidAuthority);
            }
        },
        _ => {
            return Err(StakingError::InvalidAuthority);
        },
    }
    Ok(())
}

/// Burning later never pays less: once the staking time has passed, a burn at a later time
/// counts at least as many whole days and pays at least as large a bonus.
pub proof fn law_reward_grows_with_time(
    now1: i64,
    now2: i64,
    attrs: AttributePairs,
    burn_rewards: u32,
)
    requires
        now1 <= now2,
        burn_reward_spec(now1, attrs, burn_rewards) is Ok,
        burn_reward_spec(now2, attrs, burn_rewards) is Ok,
        burn_reward_spec(now1, attrs, burn_rewards)->Ok_0.staked_days >= 0,
    ensures
        burn_reward_spec(now1, attrs, burn_rewards)->Ok_0.staked_days <= burn_reward_spec(
            now2,
            attrs,
            burn_rewards,
        )->Ok_0.staked_days,
        burn_reward_spec(now1, attrs, burn_rewards)->Ok_0.amount <= burn_reward_spec(
            now2,
            attrs,
            burn_rewards,
        )->Ok_0.amount,
{
    let staked_at = parsed_i64(last_value(attrs, staked_at_key()).unwrap()).unwrap();
    let e1 = now1 - staked_at;
    let e2 = now2 - staked_at;
    let d1 = trunc_div(e1, 86400);
    let d2 = trunc_div(e2, 86400);
    assert(d1 >= 0);
    if e1 >= 0 {
        assert(d1 <= d2) by (nonlinear_arith)
            requires
                0 <= e1 <= e2,
                d1 == e1 / 86400,
                d2 == e2 / 86400,
        ;
    } else {
        assert((-e1) / 86400 >= 0) by (nonlinear_arith)
            requires
                e1 < 0,
        ;
        assert(d1 == 0);
        if e2 >= 0 {
            assert(d2 >= 0) by (nonlinear_arith)
                requires
                    e2 >= 0,
                    d2 == e2 / 86400,
            ;
        } else {
            assert((-e1) < 86400) by (nonlinear_arith)
                requires
                    e1 < 0,
                    (-e1) / 86400 == 0,
            ;
            assert((-e2) / 86400 == 0) by (nonlinear_arith)
                requires
                    0 < -e2 <= -e1 < 86400,
            ;
        }
    }
    assert(d1 * burn_rewards <= d2 * burn_rewards) by (nonlinear_arith)
        requires
            0 <= d1 <= d2,
            burn_rewards >= 0,
    ;
}

/// A burn that gets past its final checks, with at least one whole day staked, pays at
/// least one day's bonus: exactly the days staked times the configured rate.
pub proof fn law_full_day_pays_rate(now: i64, attrs: AttributePairs, burn_rewards: u32)
    requires
        burn_reward_spec(now, attrs, burn_rewards) is Ok,
        burn_reward_spec(now, attrs, burn_rewards)->Ok_0.staked_days > 0,
    ensures
        burn_reward_spec(now, attrs, burn_rewards)->Ok_0.amount
            == burn_reward_spec(now, attrs, burn_rewards)->Ok_0.staked_days * burn_rewards,
        burn_reward_spec(now, attrs, burn_rewards)->Ok_0.amount >= burn_rewards,
{
    let r = burn_reward_spec(now, attrs, burn_rewards)->Ok_0;
    assert(r.staked_days * burn_rewards >= burn_rewards) by (nonlinear_arith)
        requires
            r.staked_days >= 1,
            burn_rewards >= 0,
    ;
}

/// With a burn rate of zero a burn never overflows, and pays nothing.
pub proof fn law_zero_rate_pays_nothing(now: i64, attrs: AttributePairs)
    ensures
        burn_reward_spec(now, attrs, 0) != Err::<BurnReward, StakingError>(StakingError::Overflow),
        burn_reward_spec(now, attrs, 0) is Ok ==> burn_reward_spec(now, attrs, 0)->Ok_0.amount
            == 0,
{
}

/// Only an asset whose last `staked` attribute reads `"true"` can be burnt for a bonus.
pub proof fn law_only_staked_assets_pay(now: i64, attrs: AttributePairs, burn_rewards: u32)
    requires
        last_value(attrs, staked_key()) != Some(true_value()),
    ensures
        burn_reward_spec(now, attrs, burn_rewards) == Err::<BurnReward, StakingError>(
            StakingError::NotStaked,
        ),
{
}

/// A staked asset whose timestamp reads and lies in the past pays the whole days since
/// then times the rate, and is refused for overflow only when that product exceeds `u64`.
pub proof fn law_bonus_is_days_times_rate(
    now: i64,
    attrs: AttributePairs,
    burn_rewards: u32,
    staked_at: i64,
)
    requires
        last_value(attrs, seq!['s', 't', 'a', 'k', 'e', 'd']) == Some(seq!['t', 'r', 'u', 'e']),
        last_value(attrs, seq!['s', 't', 'a', 'k', 'e', 'd', '_', 'a', 't']) matches Some(text)
            && parsed_i64(text) == Some(staked_at),
        staked_at <= now,
        now - staked_at <= i64::MAX,
    ensures
        ((now - staked_at) / 86400) * burn_rewards <= u64::MAX ==> burn_reward_spec(
            now,
            attrs,
            burn_rewards,
        ) == Ok::<BurnReward, StakingError>(
            BurnReward {
                staked_days: ((now - staked_at) / 86400) as i64,
                amount: (((now - staked_at) / 86400) * burn_rewards) as u64,
            },
        ),
        ((now - staked_at) / 86400) * burn_rewards > u64::MAX ==> burn_reward_spec(
            now,
            attrs,
            burn_rewards,
        ) == Err::<BurnReward, StakingError>(StakingError::Overflow),
{
    assert(staked_key() =~= seq!['s', 't', 'a', 'k', 'e', 'd']);
    assert(staked_at_key() =~= seq!['s', 't', 'a', 'k', 'e', 'd', '_', 'a', 't']);
    assert(true_value() =~= seq!['t', 'r', 'u', 'e']);
    let e = now - staked_at;
    assert(e / 86400 >= 0) by (nonlinear_arith)
        requires
            e >= 0,
    ;
    assert(e / 86400 <= e) by (nonlinear_arith)
        requires
            e >= 0,
    ;
}

/// The last entry of a key is the one that counts: appending an entry for `key` makes its
/// value the key's value, and appending one for another key changes nothing.
pub proof fn law_last_entry_counts(
    attrs: AttributePairs,
    key: Seq<char>,
    other: Seq<char>,
    value: Seq<char>,
)
    requires
        other != key,
    ensures
        last_value(attrs.push((key, value)), key) == Some(value),
        last_value(attrs.push((other, value)), key) == last_value(attrs, key),
        last_value(Seq::<(Seq<char>, Seq<char>)>::empty(), key) is None,
{
    assert(attrs.push((key, value)).drop_last() =~= attrs);
    assert(attrs.push((other, value)).drop_last() =~= attrs);
}

/// A burn is refused as not staked unless the last `staked` entry reads `true`; with it,
/// a missing or unreadable `staked_at`, or an elapsed time beyond `i64`, is an invalid
/// timestamp.
pub proof fn law_burn_refusals(now: i64, attrs: AttributePairs, burn_rewards: u32)
    ensures
        last_value(attrs, seq!['s', 't', 'a', 'k', 'e', 'd']) != Some(seq!['t', 'r', 'u', 'e'])
            ==> burn_reward_spec(now, attrs, burn_rewards) == Err::<BurnReward, StakingError>(
            StakingError::NotStaked,
        ),
        last_value(attrs, seq!['s', 't', 'a', 'k', 'e', 'd']) == Some(seq!['t', 'r', 'u', 'e'])
            && (last_value(attrs, seq!['s', 't', 'a', 'k', 'e', 'd', '_', 'a', 't']) matches Some(
            text,
        ) ==> parsed_i64(text) is None) ==> burn_reward_spec(now, attrs, burn_rewards) == Err::<
            BurnReward,
            StakingError,
        >(StakingError::InvalidTimestamp),
        last_value(attrs, seq!['s', 't', 'a', 'k', 'e', 'd']) == Some(seq!['t', 'r', 'u', 'e'])
            && (last_value(attrs, seq!['s', 't', 'a', 'k', 'e', 'd', '_', 'a', 't']) matches Some(
            text,
        ) && parsed_i64(text) matches Some(t) && (now - t > i64::MAX || now - t < i64::MIN))
            ==> burn_reward_spec(now, attrs, burn_rewards) == Err::<BurnReward, StakingError>(
            StakingError::InvalidTimestamp,
        ),
{
    assert(staked_key() =~= seq!['s', 't', 'a', 'k', 'e', 'd']);
    assert(staked_at_key() =~= seq!['s', 't', 'a', 'k', 'e', 'd', '_', 'a', 't']);
    assert(true_value() =~= seq!['t', 'r', 'u', 'e']);
}

/// A staking time less than a day ahead of `now` counts no whole day and pays nothing.
pub proof fn law_future_stake_within_a_day_pays_nothing(
    now: i64,
    attrs: AttributePairs,
    burn_rewards: u32,
    staked_at: i64,
)
    requires
        last_value(attrs, seq!['s', 't', 'a', 'k', 'e', 'd']) == Some(seq!['t', 'r', 'u', 'e']),
        last_value(attrs, seq!['s', 't', 'a', 'k', 'e', 'd', '_', 'a', 't']) matches Some(text)
            && parsed_i64(text) == Some(staked_at),
        now < staked_at < now + 86400,
    ensures
        burn_reward_spec(now, attrs, burn_rewards) == Ok::<BurnReward, StakingError>(
            BurnReward { staked_days: 0, amount: 0 },
        ),
{
    assert(staked_key() =~= seq!['s', 't', 'a', 'k', 'e', 'd']);
    assert(staked_at_key() =~= seq!['s', 't', 'a', 'k', 'e', 'd', '_', 'a', 't']);
    assert(true_value() =~= seq!['t', 'r', 'u', 'e']);
    let e = now - staked_at;
    assert((-e) / 86400 == 0) by (nonlinear_arith)
        requires
            0 < -e < 86400,
    ;
    assert(trunc_div(e, 86400) == 0);
    assert(wrapping_u64(0) == 0);
    assert(0 * burn_rewards == 0) by (nonlinear_arith);
}

/// Decrementing keeps every key and position, and every value but the `total_staked`
/// counts, each of which reads back one lower.
pub proof fn law_decrement_touches_only_counts(attrs: AttributePairs)
    requires
        total_staked_decrementable(attrs),
    ensures
        decremented(attrs).len() == attrs.len(),
        forall|i: int|
            0 <= i < attrs.len() ==> (#[trigger] decremented(attrs)[i]).0 == attrs[i].0,
        forall|i: int|
            0 <= i < attrs.len() && attrs[i].0 != seq![
                't',
                'o',
                't',
                'a',
                'l',
                '_',
                's',
                't',
                'a',
                'k',
                'e',
                'd',
            ] ==> (#[trigger] decremented(attrs)[i]).1 == attrs[i].1,
        forall|i: int|
            0 <= i < attrs.len() && attrs[i].0 == seq![
                't',
                'o',
                't',
                'a',
                'l',
                '_',
                's',
                't',
                'a',
                'k',
                'e',
                'd',
            ] ==> parsed_u32((#[trigger] decremented(attrs)[i]).1) == Some(
                (parsed_u32(attrs[i].1).unwrap() - 1) as u32,
            ),
{
    assert(total_staked_key() =~= seq![
        't',
        'o',
        't',
        'a',
        'l',
        '_',
        's',
        't',
        'a',
        'k',
        'e',
        'd',
    ]);
    assert forall|i: int|
        0 <= i < attrs.len() && attrs[i].0 == total_staked_key() implies parsed_u32(
        (#[trigger] decremented(attrs)[i]).1,
    ) == Some((parsed_u32(attrs[i].1).unwrap() - 1) as u32) by {
        law_decremented_count_reads_back(attrs[i]);
    }
}

/// Reading back the decremented count gives one less than the count that was there.
pub proof fn law_decremented_count_reads_back(a: (Seq<char>, Seq<char>))
    requires
        a.0 == total_staked_key(),
        parsed_u32(a.1) matches Some(n) && n >= 1,
    ensures
        parsed_u32(decremented_value(a)) == Some((parsed_u32(a.1).unwrap() - 1) as u32),
{
    law_written_count_reads_back((parsed_u32(a.1).unwrap() - 1) as u32);
}

} // verus!
