use vstd::prelude::*;

use crate::constants::{MARKET_CLOSE_TIME, MARKET_OPEN_CLOSE_MARGIN, MARKET_OPEN_TIME};
use crate::market::{
    is_market_open, law_market_hours, law_windows_around_the_bell, market_open, near_open_or_close,
    seconds_since_midnight, weekday,
};

verus! {

/// What an oracle answers to a lifecycle event of an asset.
#[derive(Clone, Copy, Debug, PartialEq, Eq, Structural)]
pub enum ExternalValidationResult {
    Approved,
    Rejected,
    Pass,
}

/// The answers an oracle account gives, per lifecycle event.
#[derive(Clone, Copy, Debug, PartialEq, Eq, Structural)]
pub enum OracleValidation {
    Uninitialized,
    V1 {
        create: ExternalValidationResult,
        transfer: ExternalValidationResult,
        burn: ExternalValidationResult,
        update: ExternalValidationResult,
    },
}

/// The oracle account of a collection.
#[derive(Clone, Copy, Debug, PartialEq, Eq, Structural)]
pub struct Oracle {
    pub validation: OracleValidation,
    pub bump: u8,
    pub vault_bump: u8,
}

/// The bumps of the program addresses that the oracle instruction uses.
#[derive(Clone, Copy, Debug, PartialEq, Eq, Structural)]
pub struct CreateOracleBumps {
    pub oracle: u8,
    pub reward_vault: u8,
}

/// The oracle's answers at time `t`: transfers approved while the market is open and
/// rejected otherwise; creation, update and burn always passed on.
pub open spec fn validation_at(t: int) -> OracleValidation {
    OracleValidation::V1 {
        create: ExternalValidationResult::Pass,
        transfer: if market_open(t) {
            ExternalValidationResult::Approved
        } else {
            ExternalValidationResult::Rejected
        },
        burn: ExternalValidationResult::Pass,
        update: ExternalValidationResult::Pass,
    }
}

/// The oracle account set up at the given Unix timestamp.
pub fn create_oracle(unix_timestamp: i64, bumps: &CreateOracleBumps) -> (oracle: Oracle)
    ensures
        oracle == (Oracle {
            validation: validation_at(unix_timestamp as int),
            bump: bumps.oracle,
            vault_bump: bumps.reward_vault,
        }),
{
    let transfer = if is_market_open(unix_timestamp) {
        ExternalValidationResult::Approved
    } else {
        ExternalValidationResult::Rejected
    };
    Oracle {
        validation: OracleValidation::V1 {
            transfer,
            create: ExternalValidationResult::Pass,
            update: ExternalValidationResult::Pass,
            burn: ExternalValidationResult::Pass,
        },
        bump: bumps.oracle,
        vault_bump: bumps.reward_vault,
    }
}

/// An oracle set up in the 15 minutes after the close rejects transfers; one set up in
/// the 15 minutes after the open of a weekday approves them.
pub proof fn law_oracle_around_the_bell(t: int)
    requires
        near_open_or_close(t),
    ensures
        seconds_since_midnight(t) >= MARKET_CLOSE_TIME ==> validation_at(t)->transfer
            == ExternalValidationResult::Rejected,
        seconds_since_midnight(t) < MARKET_OPEN_TIME + MARKET_OPEN_CLOSE_MARGIN && 0 <= weekday(t)
            < 5 ==> validation_at(t)->transfer == ExternalValidationResult::Approved,
{
    law_windows_around_the_bell(t);
}

/// The oracle approves transfers exactly while the market is open and rejects them
/// otherwise; creation, update and burn are always passed on.
pub proof fn law_oracle_follows_market(t: int)
    ensures
        validation_at(t) is V1,
        validation_at(t)->transfer == ExternalValidationResult::Approved <==> market_open(t),
        validation_at(t)->transfer == ExternalValidationResult::Rejected <==> !market_open(t),
        validation_at(t)->create == ExternalValidationResult::Pass,
        validation_at(t)->update == ExternalValidationResult::Pass,
        validation_at(t)->burn == ExternalValidationResult::Pass,
{
}

/// From 1970 on, an oracle set up at `t` approves transfers exactly on Monday to Friday
/// between 14:30 and 21:00 UTC.
pub proof fn law_oracle_approves_during_session(t: int)
    requires
        t >= 0,
    ensures
        validation_at(t)->transfer == ExternalValidationResult::Approved <==> ((t / 86400 + 3)
            % 7 < 5 && 52200 <= t % 86400 < 75600),
{
    law_market_hours(t);
}

} // verus!
