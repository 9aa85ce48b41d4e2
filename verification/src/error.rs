use vstd::prelude::*;

verus! {

/// The errors that the staking rules raise.
#[derive(Clone, Copy, Debug, PartialEq, Eq, Structural)]
pub enum StakingError {
    /// The collection's update authority is not the program's authority, or the
    /// asset's update authority is not the collection.
    InvalidAuthority,
    /// The asset carries no `Attributes` plugin, or is not marked as staked.
    NotStaked,
    /// The staking timestamp is missing or unreadable, or the elapsed time overflows.
    InvalidTimestamp,
    /// The reward amount does not fit in a `u64`.
    Overflow,
    /// Not a single whole day has passed since the asset was staked.
    FreezePeriodNotElapsed,
    /// The signer does not own the asset.
    InvalidOwner,
}

/// What an instruction of the program fails with.
#[derive(Clone, Debug, PartialEq, Eq)]
pub enum InstructionError {
    /// A rule of the staking program refused the request.
    Staking(StakingError),
    /// An account's data could not be read as the Metaplex Core account it should be;
    /// the text of the read error.
    AccountData(String),
}

} // verus!
