use vstd::prelude::*;
use crate::bytes::{le_i64, le_u64, read_i64, read_u64};
use crate::errors::ScopeError;
use crate::pubkey::{key_at, read_key, Pubkey};
use crate::state::{Clock, DatedPrice, Price};
use crate::utils::hours_since_timestamp;

verus! {

/// Decimal places of the price of one pool token.
pub const DECIMALS: u32 = 15;

/// Ten to the power `DECIMALS`: the number of pool tokens that is priced.
pub const FACTOR: u64 = 1_000_000_000_000_000;

/// A value that "counts down" epochs until it takes effect.
#[derive(Clone, Copy, Debug, PartialEq)]
pub enum FutureEpoch<T> {
    /// Nothing is set.
    Unset,
    /// The value is ready after the next epoch boundary.
    One(T),
    /// The value is ready after two epoch boundaries.
    Two(T),
}

impl<T> Default for FutureEpoch<T> {
    fn default() -> (e: Self)
        ensures
            e is Unset,
    {
        Self::Unset
    }
}

/// The kind of account that the stake-pool program manages.
#[derive(Clone, Copy, Debug, Default, PartialEq)]
pub enum AccountType {
    /// An account that has not been initialized.
    #[default]
    Uninitialized,
    /// A stake pool.
    StakePool,
    /// A list of validator stakes.
    ValidatorList,
}

/// A fee, as a ratio.
#[derive(Clone, Copy, Debug, Default, PartialEq)]
pub struct Fee {
    pub denominator: u64,
    pub numerator: u64,
}

/// The lockup that all stakes of a pool must have.
#[derive(Clone, Copy, Debug, Default, PartialEq)]
pub struct Lockup {
    pub unix_timestamp: i64,
    pub epoch: u64,
    pub custodian: Pubkey,
}

/// The record of a stake pool.
#[derive(Clone, Copy, Debug, Default, PartialEq)]
pub struct StakePool {
    pub account_type: AccountType,
    pub manager: Pubkey,
    pub staker: Pubkey,
    pub stake_deposit_authority: Pubkey,
    pub stake_withdraw_bump_seed: u8,
    pub validator_list: Pubkey,
    pub reserve_stake: Pubkey,
    pub pool_mint: Pubkey,
    pub manager_fee_account: Pubkey,
    pub token_program_id: Pubkey,
    /// Total stake under management; accurate only where `last_update_epoch`
    /// is the current epoch.
    pub total_lamports: u64,
    /// Total supply of pool tokens.
    pub pool_token_supply: u64,
    /// Last epoch in which `total_lamports` was updated.
    pub last_update_epoch: u64,
    pub lockup: Lockup,
    pub epoch_fee: Fee,
    pub next_epoch_fee: FutureEpoch<Fee>,
    pub preferred_deposit_validator_vote_address: Option<Pubkey>,
    pub preferred_withdraw_validator_vote_address: Option<Pubkey>,
    pub stake_deposit_fee: Fee,
    pub stake_withdrawal_fee: Fee,
    pub next_stake_withdrawal_fee: FutureEpoch<Fee>,
    pub stake_referral_fee: u8,
    pub sol_deposit_authority: Option<Pubkey>,
    pub sol_deposit_fee: Fee,
    pub sol_referral_fee: u8,
    pub sol_withdraw_authority: Option<Pubkey>,
    pub sol_withdrawal_fee: Fee,
    pub next_sol_withdrawal_fee: FutureEpoch<Fee>,
    pub last_epoch_pool_token_supply: u64,
    pub last_epoch_total_lamports: u64,
}

/// Length of the part of the record that comes before its first field of
/// varying length.
pub const FIXED_HEAD_LEN: usize = 346;

/// The position behind `width` bytes at `at`, or -1 where `at` is -1 or the
/// bytes are not all there.
pub open spec fn after_fixed(b: Seq<u8>, at: int, width: int) -> int {
    if 0 <= at && at + width <= b.len() {
        at + width
    } else {
        -1
    }
}

/// The position behind the counted-down fee at `at`: a tag of 0, or a tag of 1
/// or 2 and a fee; -1 where `at` is -1, the tag is another or bytes are
/// missing.
pub open spec fn after_future_fee(b: Seq<u8>, at: int) -> int {
    if 0 <= at < b.len() {
        if b[at] == 0 {
            at + 1
        } else if b[at] == 1 || b[at] == 2 {
            after_fixed(b, at + 1, 16)
        } else {
            -1
        }
    } else {
        -1
    }
}

/// The position behind the optional address at `at`: a tag of 0, or a tag of 1
/// and an address; -1 where `at` is -1, the tag is another or bytes are
/// missing.
pub open spec fn after_opt_key(b: Seq<u8>, at: int) -> int {
    if 0 <= at < b.len() {
        if b[at] == 0 {
            at + 1
        } else if b[at] == 1 {
            after_fixed(b, at + 1, 32)
        } else {
            -1
        }
    } else {
        -1
    }
}

/// The fee at `at`.
pub open spec fn fee_at(b: Seq<u8>, at: int) -> Fee {
    Fee { denominator: le_u64(b, at), numerator: le_u64(b, at + 8) }
}

/// The counted-down fee at `at`.
pub open spec fn future_fee_at(b: Seq<u8>, at: int) -> FutureEpoch<Fee> {
    if b[at] == 0 {
        FutureEpoch::Unset
    } else if b[at] == 1 {
        FutureEpoch::One(fee_at(b, at + 1))
    } else {
        FutureEpoch::Two(fee_at(b, at + 1))
    }
}

/// The optional address at `at`.
pub open spec fn opt_key_at(b: Seq<u8>, at: int) -> Option<Pubkey> {
    if b[at] == 0 {
        None
    } else {
        Some(key_at(b, at + 1))
    }
}

/// The kind of account that a tag stands for.
pub open spec fn account_type_of(tag: u8) -> AccountType {
    if tag == 0 {
        AccountType::Uninitialized
    } else if tag == 1 {
        AccountType::StakePool
    } else {
        AccountType::ValidatorList
    }
}

/// Where each field of varying position starts in a record, and where the
/// record ends; -1 from the first field on that is malformed or cut short.
pub struct Offsets {
    pub next_epoch_fee: int,
    pub preferred_deposit: int,
    pub preferred_withdraw: int,
    pub stake_fees: int,
    pub next_stake_withdrawal_fee: int,
    pub stake_referral_fee: int,
    pub sol_deposit_authority: int,
    pub sol_deposit_fee: int,
    pub sol_withdraw_authority: int,
    pub sol_withdrawal_fee: int,
    pub next_sol_withdrawal_fee: int,
    pub last_epoch: int,
    pub end: int,
}

/// The offsets of the fields of the record that `b` starts with.
pub open spec fn offsets(b: Seq<u8>) -> Offsets {
    let next_epoch_fee = if b.len() >= 346 && b[0] <= 2 {
        346int
    } else {
        -1int
    };
    let preferred_deposit = after_future_fee(b, next_epoch_fee);
    let preferred_withdraw = after_opt_key(b, preferred_deposit);
    let stake_fees = after_opt_key(b, preferred_withdraw);
    let next_stake_withdrawal_fee = after_fixed(b, stake_fees, 32);
    let stake_referral_fee = after_future_fee(b, next_stake_withdrawal_fee);
    let sol_deposit_authority = after_fixed(b, stake_referral_fee, 1);
    let sol_deposit_fee = after_opt_key(b, sol_deposit_authority);
    let sol_withdraw_authority = after_fixed(b, sol_deposit_fee, 17);
    let sol_withdrawal_fee = after_opt_key(b, sol_withdraw_authority);
    let next_sol_withdrawal_fee = after_fixed(b, sol_withdrawal_fee, 16);
    let last_epoch = after_future_fee(b, next_sol_withdrawal_fee);
    let end = after_fixed(b, last_epoch, 16);
    Offsets {
        next_epoch_fee,
        preferred_deposit,
        preferred_withdraw,
        stake_fees,
        next_stake_withdrawal_fee,
        stake_referral_fee,
        sol_deposit_authority,
        sol_deposit_fee,
        sol_withdraw_authority,
        sol_withdrawal_fee,
        next_sol_withdrawal_fee,
        last_epoch,
        end,
    }
}

/// The stake pool that `b` starts with, where it starts with one: every
/// field in the order of the record, integers with the least significant byte
/// first, each enumeration and each option behind a tag of one byte. Bytes
/// behind the record are not looked at.
pub open spec fn parse_stake_pool(b: Seq<u8>) -> Option<StakePool> {
    let o = offsets(b);
    if o.end < 0 {
        None
    } else {
        Some(
            StakePool {
                account_type: account_type_of(b[0]),
                manager: key_at(b, 1),
                staker: key_at(b, 33),
                stake_deposit_authority: key_at(b, 65),
                stake_withdraw_bump_seed: b[97],
                validator_list: key_at(b, 98),
                reserve_stake: key_at(b, 130),
                pool_mint: key_at(b, 162),
                manager_fee_account: key_at(b, 194),
                token_program_id: key_at(b, 226),
                total_lamports: le_u64(b, 258),
                pool_token_supply: le_u64(b, 266),
                last_update_epoch: le_u64(b, 274),
                lockup: Lockup {
                    unix_timestamp: le_i64(b, 282),
                    epoch: le_u64(b, 290),
                    custodian: key_at(b, 298),
                },
                epoch_fee: fee_at(b, 330),
                next_epoch_fee: future_fee_at(b, o.next_epoch_fee),
                preferred_deposit_validator_vote_address: opt_key_at(b, o.preferred_deposit),
                preferred_withdraw_validator_vote_address: opt_key_at(b, o.preferred_withdraw),
                stake_deposit_fee: fee_at(b, o.stake_fees),
                stake_withdrawal_fee: fee_at(b, o.stake_fees + 16),
                next_stake_withdrawal_fee: future_fee_at(b, o.next_stake_withdrawal_fee),
                stake_referral_fee: b[o.stake_referral_fee],
                sol_deposit_authority: opt_key_at(b, o.sol_deposit_authority),
                sol_deposit_fee: fee_at(b, o.sol_deposit_fee),
                sol_referral_fee: b[o.sol_deposit_fee + 16],
                sol_withdraw_authority: opt_key_at(b, o.sol_withdraw_authority),
                sol_withdrawal_fee: fee_at(b, o.sol_withdrawal_fee),
                next_sol_withdrawal_fee: future_fee_at(b, o.next_sol_withdrawal_fee),
                last_epoch_pool_token_supply: le_u64(b, o.last_epoch),
                last_epoch_total_lamports: le_u64(b, o.last_epoch + 8),
            },
        )
    }
}

/// Reads the fee at `at`.
fn read_fee(b: &[u8], at: usize) -> (fee: Fee)
    requires
        at + 16 <= b@.len(),
    ensures
        fee == fee_at(b@, at as int),
{
    let len: usize = b.len();
    assert(at + 16 <= len);
    Fee { denominator: read_u64(b, at), numerator: read_u64(b, at + 8) }
}

/// Reads the counted-down fee at `at` and the position behind it.
fn read_future_fee(b: &[u8], at: usize) -> (res: Option<(FutureEpoch<Fee>, usize)>)
    ensures
        res is None <==> after_future_fee(b@, at as int) < 0,
        res matches Some((fee, next)) ==> fee == future_fee_at(b@, at as int) && next
            == after_future_fee(b@, at as int),
{
    if at >= b.len() {
        return None;
    }
    let tag: u8 = b[at];
    if tag == 0 {
        Some((FutureEpoch::Unset, at + 1))
    } else if tag == 1 || tag == 2 {
        if b.len() - at < 17 {
            return None;
        }
        let fee = read_fee(b, at + 1);
        if tag == 1 {
            Some((FutureEpoch::One(fee), at + 17))
        } else {
            Some((FutureEpoch::Two(fee), at + 17))
        }
    } else {
        None
    }
}

/// Reads the optional address at `at` and the position behind it.
fn read_opt_key(b: &[u8], at: usize) -> (res: Option<(Option<Pubkey>, usize)>)
    ensures
        res is None <==> after_opt_key(b@, at as int) < 0,
        res matches Some((key, next)) ==> key == opt_key_at(b@, at as int) && next
            == after_opt_key(b@, at as int),
{
    if at >= b.len() {
        return None;
    }
    let tag: u8 = b[at];
    if tag == 0 {
        Some((None, at + 1))
    } else if tag == 1 {
        if b.len() - at < 33 {
            return None;
        }
        let key = read_key(b, at + 1);
        Some((Some(key), at + 33))
    } else {
        None
    }
}

impl StakePool {
    /// Decodes the stake pool that `data` starts with.
    pub fn parse(data: &[u8]) -> (res: Option<StakePool>)
        ensures
            res == parse_stake_pool(data@),
    {
        let len: usize = data.len();
        if len < FIXED_HEAD_LEN {
            return None;
        }
        let account_type = if data[0] == 0 {
            AccountType::Uninitialized
        } else if data[0] == 1 {
            AccountType::StakePool
        } else if data[0] == 2 {
            AccountType::ValidatorList
        } else {
            return None;
        };
        let lockup = Lockup {
            unix_timestamp: read_i64(data, 282),
            epoch: read_u64(data, 290),
            custodian: read_key(data, 298),
        };
        let (next_epoch_fee, at) = match read_future_fee(data, FIXED_HEAD_LEN) {
            Some(x) => x,
            None => { return None; },
        };
        let (preferred_deposit, at) = match read_opt_key(data, at) {
            Some(x) => x,
            None => { return None; },
        };
        let (preferred_withdraw, at) = match read_opt_key(data, at) {
            Some(x) => x,
            None => { return None; },
        };
        if len - at < 32 {
            return None;
        }
        let stake_deposit_fee = read_fee(data, at);
        let stake_withdrawal_fee = read_fee(data, at + 16);
        let (next_stake_withdrawal_fee, at) = match read_future_fee(data, at + 32) {
            Some(x) => x,
            None => { return None; },
        };
        if len - at < 1 {
            return None;
        }
        let stake_referral_fee: u8 = data[at];
        let (sol_deposit_authority, at) = match read_opt_key(data, at + 1) {
            Some(x) => x,
            None => { return None; },
        };
        if len - at < 17 {
            return None;
        }
        let sol_deposit_fee = read_fee(data, at);
        let sol_referral_fee: u8 = data[at + 16];
        let (sol_withdraw_authority, at) = match read_opt_key(data, at + 17) {
            Some(x) => x,
            None => { return None; },
        };
        if len - at < 16 {
            return None;
        }
        let sol_withdrawal_fee = read_fee(data, at);
        let (next_sol_withdrawal_fee, at) = match read_future_fee(data, at + 16) {
            Some(x) => x,
            None => { return None; },
        };
        if len - at < 16 {
            return None;
        }
        Some(
            StakePool {
                account_type,
                manager: read_key(data, 1),
                staker: read_key(data, 33),
                stake_deposit_authority: read_key(data, 65),
                stake_withdraw_bump_seed: data[97],
                validator_list: read_key(data, 98),
                reserve_stake: read_key(data, 130),
                pool_mint: read_key(data, 162),
                manager_fee_account: read_key(data, 194),
                token_program_id: read_key(data, 226),
                total_lamports: read_u64(data, 258),
                pool_token_supply: read_u64(data, 266),
                last_update_epoch: read_u64(data, 274),
                lockup,
                epoch_fee: read_fee(data, 330),
                next_epoch_fee,
                preferred_deposit_validator_vote_address: preferred_deposit,
                preferred_withdraw_validator_vote_address: preferred_withdraw,
                stake_deposit_fee,
                stake_withdrawal_fee,
                next_stake_withdrawal_fee,
                stake_referral_fee,
                sol_deposit_authority,
                sol_deposit_fee,
                sol_referral_fee,
                sol_withdraw_authority,
                sol_withdrawal_fee,
                next_sol_withdrawal_fee,
                last_epoch_pool_token_supply: read_u64(data, at),
                last_epoch_total_lamports: read_u64(data, at + 8),
            },
        )
    }
}

/// What `pool_tokens` pool tokens are worth in a pool that holds
/// `total_lamports` against a supply of `pool_token_supply` tokens: the whole
/// part of their share; zero where the supply is zero or the share is below
/// one; nothing where it does not fit 64 bits.
pub open spec fn withdraw_amount(total_lamports: u64, pool_token_supply: u64, pool_tokens: u64)
    -> Option<u64> {
    let numerator = pool_tokens as int * total_lamports as int;
    if pool_token_supply == 0 || numerator < pool_token_supply {
        Some(0u64)
    } else if numerator / (pool_token_supply as int) <= u64::MAX {
        Some((numerator / (pool_token_supply as int)) as u64)
    } else {
        None
    }
}

impl StakePool {
    /// The amount that `pool_tokens` pool tokens withdraw from the pool.
    pub fn calc_lamports_withdraw_amount(&self, pool_tokens: u64) -> (amount: Option<u64>)
        ensures
            amount == withdraw_amount(self.total_lamports, self.pool_token_supply, pool_tokens),
    {
        assert(pool_tokens as int * self.total_lamports as int <= u128::MAX) by (nonlinear_arith)
            requires
                pool_tokens <= u64::MAX,
                self.total_lamports <= u64::MAX,
        ;
        let numerator: u128 = match (pool_tokens as u128).checked_mul(self.total_lamports as u128) {
            Some(n) => n,
            None => { return None; },
        };
        let denominator: u128 = self.pool_token_supply as u128;
        if numerator < denominator || denominator == 0 {
            Some(0)
        } else {
            let quotient: u128 = numerator / denominator;
            if quotient <= u64::MAX as u128 {
                Some(quotient as u64)
            } else {
                None
            }
        }
    }
}

/// The price of one pool token in lamports, with `DECIMALS` decimal places.
pub open spec fn scaled_rate_of(pool: StakePool) -> Result<u64, ScopeError> {
    match withdraw_amount(pool.total_lamports, pool.pool_token_supply, FACTOR) {
        Some(value) => Ok(value),
        None => Err(ScopeError::MathOverflow),
    }
}

/// The price of one pool token in lamports, with `DECIMALS` decimal places;
/// `MathOverflow` where it does not fit 64 bits.
pub fn scaled_rate(stake_pool: &StakePool) -> (rate: Result<u64, ScopeError>)
    ensures
        rate == scaled_rate_of(*stake_pool),
{
    match stake_pool.calc_lamports_withdraw_amount(FACTOR) {
        Some(value) => Ok(value),
        None => Err(ScopeError::MathOverflow),
    }
}

/// Seconds from the start of the current epoch to now; none where the clock
/// puts the start of the epoch before the origin of time or after now.
pub open spec fn seconds_into_epoch(clock: Clock) -> int {
    if clock.epoch_start_timestamp < 0 || clock.unix_timestamp <= clock.epoch_start_timestamp {
        0
    } else {
        clock.unix_timestamp - clock.epoch_start_timestamp
    }
}

/// A pool is stale once the current epoch is an hour old and the pool has not
/// been updated in it.
pub open spec fn is_stale(pool: StakePool, clock: Clock) -> bool {
    pool.last_update_epoch != clock.epoch && seconds_into_epoch(clock) >= 3600
}

/// The price that the stake-pool adapter gives for the record `b` at the
/// time `clock`.
pub open spec fn stake_pool_price(b: Seq<u8>, clock: Clock) -> Result<DatedPrice, ScopeError> {
    match parse_stake_pool(b) {
        None => Err(ScopeError::UnexpectedAccount),
        Some(pool) => if is_stale(pool, clock) {
            Err(ScopeError::PriceNotValid)
        } else {
            match scaled_rate_of(pool) {
                Err(e) => Err(e),
                Ok(value) => Ok(
                    DatedPrice {
                        price: Price { value, exp: 15 },
                        last_updated_slot: clock.slot,
                        unix_timestamp: clock.unix_timestamp as u64,
                    },
                ),
            }
        },
    }
}

/// The price of one staked token in the token it stakes, from the record of
/// its pool.
///
/// `UnexpectedAccount` where the record is no stake pool, `PriceNotValid`
/// where the pool is stale, `MathOverflow` where the rate does not fit.
pub fn get_price(stake_pool_account_data: &[u8], current_clock: &Clock) -> (res: Result<
    DatedPrice,
    ScopeError,
>)
    requires
        current_clock.unix_timestamp >= 0,
    ensures
        res == stake_pool_price(stake_pool_account_data@, *current_clock),
{
    let stake_pool = match StakePool::parse(stake_pool_account_data) {
        Some(pool) => pool,
        None => { return Err(ScopeError::UnexpectedAccount); },
    };
    let now: u64 = current_clock.unix_timestamp as u64;
    let hours_since_epoch_started: u64 = if current_clock.epoch_start_timestamp < 0 {
        0
    } else {
        hours_since_timestamp(now, current_clock.epoch_start_timestamp as u64)
    };
    if stake_pool.last_update_epoch != current_clock.epoch && hours_since_epoch_started >= 1 {
        return Err(ScopeError::PriceNotValid);
    }
    let value: u64 = match scaled_rate(&stake_pool) {
        Ok(value) => value,
        Err(e) => { return Err(e); },
    };
    Ok(
        DatedPrice {
            price: Price { value, exp: DECIMALS as u64 },
            last_updated_slot: current_clock.slot,
            unix_timestamp: now,
        },
    )
}

} // verus!
