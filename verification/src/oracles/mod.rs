//! Source adapters: each decodes one family of external price records,
//! applies that family's freshness and sanity policy and yields a price.

use vstd::prelude::*;
use crate::errors::ScopeError;
use crate::pubkey::Pubkey;
use crate::state::{Clock, DatedPrice};

pub mod pyth;
pub mod spl_stake;

verus! {

/// The families of price records that there is an adapter for.
#[derive(Clone, Copy, Debug, PartialEq, Eq, Structural)]
pub enum OracleType {
    /// A price record of a publisher network, of fixed layout.
    Pyth,
    /// The record of a stake pool, priced by the ratio of stake to supply.
    SplStake,
}

/// An external account as the ledger hands it to an operation: its address,
/// the family of its record and the bytes of the record.
#[derive(Clone, Debug, PartialEq, Eq)]
pub struct AccountInfo {
    pub key: Pubkey,
    pub kind: OracleType,
    pub data: Vec<u8>,
}

/// The price that the adapter of the family `kind` gives for the record `b`
/// at the time `clock`.
pub open spec fn source_price(kind: OracleType, b: Seq<u8>, clock: Clock) -> Result<
    DatedPrice,
    ScopeError,
> {
    match kind {
        OracleType::Pyth => pyth::pyth_price(b, clock),
        OracleType::SplStake => spl_stake::stake_pool_price(b, clock),
    }
}

/// Whether the adapter of the family `kind` accepts the record `b` as a
/// source: a price record must be valid, a stake pool must decode.
pub open spec fn source_validity(kind: OracleType, b: Seq<u8>) -> Result<(), ScopeError> {
    match kind {
        OracleType::Pyth => match pyth::parse_pyth_price(b) {
            None => Err(ScopeError::UnexpectedAccount),
            Some(p) => pyth::pyth_validity(p),
        },
        OracleType::SplStake => match spl_stake::parse_stake_pool(b) {
            None => Err(ScopeError::UnexpectedAccount),
            Some(_) => Ok(()),
        },
    }
}

/// Decodes and checks a record with the adapter of its family and returns
/// its price.
pub fn get_price(kind: OracleType, data: &[u8], current_clock: &Clock) -> (res: Result<
    DatedPrice,
    ScopeError,
>)
    requires
        current_clock.unix_timestamp >= 0,
    ensures
        res == source_price(kind, data@, *current_clock),
{
    match kind {
        OracleType::Pyth => pyth::get_price(data, current_clock),
        OracleType::SplStake => spl_stake::get_price(data, current_clock),
    }
}

/// Checks a record with the adapter of its family before it is taken as the
/// source of a slot.
pub fn validate(kind: OracleType, data: &[u8]) -> (res: Result<(), ScopeError>)
    ensures
        res == source_validity(kind, data@),
{
    match kind {
        OracleType::Pyth => match pyth::PythPrice::parse(data) {
            None => Err(ScopeError::UnexpectedAccount),
            Some(record) => pyth::validate_pyth_price(&record),
        },
        OracleType::SplStake => match spl_stake::StakePool::parse(data) {
            None => Err(ScopeError::UnexpectedAccount),
            Some(_) => Ok(()),
        },
    }
}

} // verus!
