use scope::errors::ScopeError;
use scope::oracles::spl_stake::{
    get_price, scaled_rate, AccountType, Fee, FutureEpoch, StakePool, DECIMALS, FACTOR,
};
use scope::pubkey::Pubkey;
use scope::state::Clock;
use solana_program::borsh0_10::try_from_slice_unchecked;
use solana_program::stake::state::Lockup;

fn clock(epoch: u64, epoch_start: i64, now: i64) -> Clock {
    Clock {
        slot: 77,
        epoch_start_timestamp: epoch_start,
        epoch,
        leader_schedule_epoch: epoch + 1,
        unix_timestamp: now,
    }
}

/// The bytes of a pool with every optional field unset.
fn pool_bytes(total_lamports: u64, pool_token_supply: u64, last_update_epoch: u64) -> Vec<u8> {
    let mut data = vec![0u8; 346];
    data[0] = 1;
    data[258..266].copy_from_slice(&total_lamports.to_le_bytes());
    data[266..274].copy_from_slice(&pool_token_supply.to_le_bytes());
    data[274..282].copy_from_slice(&last_update_epoch.to_le_bytes());
    data.extend_from_slice(&[0u8; 89]);
    data
}

/// The bytes of a pool with every optional field set and every field distinct.
fn full_pool_bytes() -> Vec<u8> {
    let mut data: Vec<u8> = Vec::new();
    data.push(1);
    for k in 1u8..=3 {
        data.extend_from_slice(&[k; 32]);
    }
    data.push(254);
    for k in 4u8..=8 {
        data.extend_from_slice(&[k; 32]);
    }
    data.extend_from_slice(&1_000u64.to_le_bytes());
    data.extend_from_slice(&2_000u64.to_le_bytes());
    data.extend_from_slice(&3_000u64.to_le_bytes());
    data.extend_from_slice(&(-5i64).to_le_bytes());
    data.extend_from_slice(&6u64.to_le_bytes());
    data.extend_from_slice(&[9u8; 32]);
    data.extend_from_slice(&10u64.to_le_bytes());
    data.extend_from_slice(&11u64.to_le_bytes());
    // next_epoch_fee: One
    data.push(1);
    data.extend_from_slice(&12u64.to_le_bytes());
    data.extend_from_slice(&13u64.to_le_bytes());
    // preferred deposit, preferred withdraw
    data.push(1);
    data.extend_from_slice(&[14u8; 32]);
    data.push(0);
    // stake deposit fee, stake withdrawal fee
    for v in 15u64..=18 {
        data.extend_from_slice(&v.to_le_bytes());
    }
    // next_stake_withdrawal_fee: Two
    data.push(2);
    data.extend_from_slice(&19u64.to_le_bytes());
    data.extend_from_slice(&20u64.to_le_bytes());
    data.push(21);
    data.push(1);
    data.extend_from_slice(&[22u8; 32]);
    data.extend_from_slice(&23u64.to_le_bytes());
    data.extend_from_slice(&24u64.to_le_bytes());
    data.push(25);
    data.push(1);
    data.extend_from_slice(&[26u8; 32]);
    data.extend_from_slice(&27u64.to_le_bytes());
    data.extend_from_slice(&28u64.to_le_bytes());
    data.push(0);
    data.extend_from_slice(&u64::MAX.to_le_bytes());
    data.extend_from_slice(&30u64.to_le_bytes());
    data
}

#[test]
pub fn minted_token_is_equal_to_token_in_vault() {
    let total_lamports = 10u64.pow(5);
    let pool_token_supply = 10u64.pow(5);
    let stake_pool = StakePool { total_lamports, pool_token_supply, ..Default::default() };
    assert_eq!(scaled_rate(&stake_pool).unwrap(), 10u64.pow(DECIMALS));
}

#[test]
pub fn minted_token_is_2x_token_in_vault() {
    let total_lamports = 10u64.pow(5);
    let pool_token_supply = 2 * 10u64.pow(5);
    let stake_pool = StakePool { total_lamports, pool_token_supply, ..Default::default() };
    assert_eq!(scaled_rate(&stake_pool).unwrap(), 5 * 10u64.pow(DECIMALS - 1));
}

#[test]
pub fn token_in_vault_is_2x_token_minted() {
    let total_lamports = 2 * 10u64.pow(5);
    let pool_token_supply = 10u64.pow(5);
    let stake_pool = StakePool { total_lamports, pool_token_supply, ..Default::default() };
    assert_eq!(scaled_rate(&stake_pool).unwrap(), 2 * 10u64.pow(DECIMALS));
}

#[test]
fn factor_is_ten_to_the_decimals() {
    assert_eq!(FACTOR, 10u64.pow(DECIMALS));
}

#[test]
fn rate_of_empty_supply_is_zero() {
    let stake_pool = StakePool { total_lamports: 100_000, pool_token_supply: 0, ..Default::default() };
    assert_eq!(scaled_rate(&stake_pool), Ok(0));
    assert_eq!(stake_pool.calc_lamports_withdraw_amount(FACTOR), Some(0));
}

#[test]
fn rate_below_one_unit_is_zero() {
    let stake_pool = StakePool { total_lamports: 1, pool_token_supply: u64::MAX, ..Default::default() };
    assert_eq!(scaled_rate(&stake_pool), Ok(0));
    let nothing = StakePool { total_lamports: 0, pool_token_supply: 5, ..Default::default() };
    assert_eq!(nothing.calc_lamports_withdraw_amount(7), Some(0));
}

#[test]
fn rate_rounds_down() {
    let stake_pool = StakePool { total_lamports: 2, pool_token_supply: 3, ..Default::default() };
    assert_eq!(stake_pool.calc_lamports_withdraw_amount(10), Some(6));
    assert_eq!(stake_pool.calc_lamports_withdraw_amount(1), Some(0));
    assert_eq!(stake_pool.calc_lamports_withdraw_amount(3), Some(2));
}

#[test]
fn rate_that_does_not_fit_is_an_overflow() {
    let stake_pool = StakePool { total_lamports: u64::MAX, pool_token_supply: 1, ..Default::default() };
    assert_eq!(stake_pool.calc_lamports_withdraw_amount(FACTOR), None);
    assert_eq!(scaled_rate(&stake_pool), Err(ScopeError::MathOverflow));
    assert_eq!(stake_pool.calc_lamports_withdraw_amount(1), Some(u64::MAX));
}

#[test]
fn future_epoch_default_is_unset() {
    let fee: FutureEpoch<Fee> = FutureEpoch::default();
    assert_eq!(fee, FutureEpoch::Unset);
}

#[test]
fn parses_a_pool_without_optional_fields() {
    let data = pool_bytes(5, 6, 7);
    let pool = StakePool::parse(&data).unwrap();
    let expected = StakePool {
        account_type: AccountType::StakePool,
        total_lamports: 5,
        pool_token_supply: 6,
        last_update_epoch: 7,
        ..Default::default()
    };
    assert_eq!(pool, expected);
}

#[test]
fn parses_every_field_of_a_pool() {
    let mut data = full_pool_bytes();
    let len = data.len();
    data.extend_from_slice(&[0xee; 7]);
    let pool = StakePool::parse(&data).unwrap();
    assert_eq!(pool.account_type, AccountType::StakePool);
    assert_eq!(pool.manager, Pubkey::new_from_array([1; 32]));
    assert_eq!(pool.staker, Pubkey::new_from_array([2; 32]));
    assert_eq!(pool.stake_deposit_authority, Pubkey::new_from_array([3; 32]));
    assert_eq!(pool.stake_withdraw_bump_seed, 254);
    assert_eq!(pool.validator_list, Pubkey::new_from_array([4; 32]));
    assert_eq!(pool.reserve_stake, Pubkey::new_from_array([5; 32]));
    assert_eq!(pool.pool_mint, Pubkey::new_from_array([6; 32]));
    assert_eq!(pool.manager_fee_account, Pubkey::new_from_array([7; 32]));
    assert_eq!(pool.token_program_id, Pubkey::new_from_array([8; 32]));
    assert_eq!(pool.total_lamports, 1_000);
    assert_eq!(pool.pool_token_supply, 2_000);
    assert_eq!(pool.last_update_epoch, 3_000);
    assert_eq!(pool.lockup.unix_timestamp, -5);
    assert_eq!(pool.lockup.epoch, 6);
    assert_eq!(pool.lockup.custodian, Pubkey::new_from_array([9; 32]));
    assert_eq!(pool.epoch_fee, Fee { denominator: 10, numerator: 11 });
    assert_eq!(pool.next_epoch_fee, FutureEpoch::One(Fee { denominator: 12, numerator: 13 }));
    assert_eq!(
        pool.preferred_deposit_validator_vote_address,
        Some(Pubkey::new_from_array([14; 32]))
    );
    assert_eq!(pool.preferred_withdraw_validator_vote_address, None);
    assert_eq!(pool.stake_deposit_fee, Fee { denominator: 15, numerator: 16 });
    assert_eq!(pool.stake_withdrawal_fee, Fee { denominator: 17, numerator: 18 });
    assert_eq!(
        pool.next_stake_withdrawal_fee,
        FutureEpoch::Two(Fee { denominator: 19, numerator: 20 })
    );
    assert_eq!(pool.stake_referral_fee, 21);
    assert_eq!(pool.sol_deposit_authority, Some(Pubkey::new_from_array([22; 32])));
    assert_eq!(pool.sol_deposit_fee, Fee { denominator: 23, numerator: 24 });
    assert_eq!(pool.sol_referral_fee, 25);
    assert_eq!(pool.sol_withdraw_authority, Some(Pubkey::new_from_array([26; 32])));
    assert_eq!(pool.sol_withdrawal_fee, Fee { denominator: 27, numerator: 28 });
    assert_eq!(pool.next_sol_withdrawal_fee, FutureEpoch::Unset);
    assert_eq!(pool.last_epoch_pool_token_supply, u64::MAX);
    assert_eq!(pool.last_epoch_total_lamports, 30);
    // every byte of the record is needed
    assert_eq!(StakePool::parse(&data[..len]), Some(pool));
    assert_eq!(StakePool::parse(&data[..len - 1]), None);
}

#[test]
fn fixed_part_of_a_pool_reads_as_the_serialization_format_does() {
    type Head = (
        (u8, [u8; 32], [u8; 32], [u8; 32], u8),
        ([u8; 32], [u8; 32], [u8; 32], [u8; 32], [u8; 32]),
        (u64, u64, u64),
        Lockup,
        (u64, u64),
    );
    let data = full_pool_bytes();
    let pool = StakePool::parse(&data).unwrap();
    let head: Head = try_from_slice_unchecked(&data).unwrap();
    assert_eq!((head.0).0, 1);
    assert_eq!((head.0).1, pool.manager.to_bytes());
    assert_eq!((head.0).2, pool.staker.to_bytes());
    assert_eq!((head.0).3, pool.stake_deposit_authority.to_bytes());
    assert_eq!((head.0).4, pool.stake_withdraw_bump_seed);
    assert_eq!((head.1).0, pool.validator_list.to_bytes());
    assert_eq!((head.1).4, pool.token_program_id.to_bytes());
    assert_eq!(head.2, (pool.total_lamports, pool.pool_token_supply, pool.last_update_epoch));
    assert_eq!(head.3.unix_timestamp, pool.lockup.unix_timestamp);
    assert_eq!(head.3.epoch, pool.lockup.epoch);
    assert_eq!(head.3.custodian.to_bytes(), pool.lockup.custodian.to_bytes());
    assert_eq!(head.4, (pool.epoch_fee.denominator, pool.epoch_fee.numerator));
    let preferred: Option<[u8; 32]> = try_from_slice_unchecked(&data[346 + 17..]).unwrap();
    assert_eq!(preferred, pool.preferred_deposit_validator_vote_address.map(|k| k.to_bytes()));
    let bad_tag: Result<Option<[u8; 32]>, _> = try_from_slice_unchecked(&[2u8; 40]);
    assert!(bad_tag.is_err());
}

#[test]
fn rejects_malformed_pools() {
    assert_eq!(StakePool::parse(&[]), None);
    let good = pool_bytes(1, 1, 1);
    assert!(StakePool::parse(&good).is_some());
    let mut bad_type = good.clone();
    bad_type[0] = 3;
    assert_eq!(StakePool::parse(&bad_type), None);
    let mut bad_future = good.clone();
    bad_future[346] = 3;
    assert_eq!(StakePool::parse(&bad_future), None);
    let mut bad_option = good.clone();
    bad_option[347] = 2;
    assert_eq!(StakePool::parse(&bad_option), None);
    // a set option needs its address
    let mut set_option = good.clone();
    set_option[347] = 1;
    assert_eq!(StakePool::parse(&set_option), None);
    set_option.extend_from_slice(&[0u8; 32]);
    assert!(StakePool::parse(&set_option).is_some());
    assert_eq!(StakePool::parse(&good[..good.len() - 1]), None);
    assert_eq!(StakePool::parse(&good[..345]), None);
}

#[test]
fn price_of_a_fresh_pool() {
    let data = pool_bytes(200_000, 100_000, 12);
    let price = get_price(&data, &clock(12, 1_000, 1_000_000)).unwrap();
    assert_eq!(price.price.value, 2 * 10u64.pow(15));
    assert_eq!(price.price.exp, 15);
    assert_eq!(price.last_updated_slot, 77);
    assert_eq!(price.unix_timestamp, 1_000_000);
}

#[test]
fn pool_not_refreshed_an_hour_into_the_epoch_is_stale() {
    let data = pool_bytes(100_000, 100_000, 11);
    // exactly one hour past the start of the epoch
    assert_eq!(get_price(&data, &clock(12, 1_000, 4_600)), Err(ScopeError::PriceNotValid));
    assert_eq!(get_price(&data, &clock(12, 1_000, 1_000_000)), Err(ScopeError::PriceNotValid));
    // one second less than an hour
    let fresh = get_price(&data, &clock(12, 1_000, 4_599)).unwrap();
    assert_eq!(fresh.price.value, 10u64.pow(15));
    // refreshed in the current epoch, however old the epoch is
    assert!(get_price(&data, &clock(11, 1_000, 1_000_000)).is_ok());
}

#[test]
fn epoch_start_outside_of_time_counts_as_now() {
    let data = pool_bytes(100_000, 100_000, 11);
    assert!(get_price(&data, &clock(12, -1, 1_000_000)).is_ok());
    assert!(get_price(&data, &clock(12, 2_000_000, 1_000_000)).is_ok());
    assert_eq!(get_price(&data, &clock(12, 0, 3_600)), Err(ScopeError::PriceNotValid));
}

#[test]
fn price_errors_of_a_pool() {
    assert_eq!(get_price(&[1, 2, 3], &clock(1, 0, 10)), Err(ScopeError::UnexpectedAccount));
    let overflow = pool_bytes(u64::MAX, 1, 1);
    assert_eq!(get_price(&overflow, &clock(1, 0, 10)), Err(ScopeError::MathOverflow));
    // staleness is looked at before the rate
    assert_eq!(get_price(&overflow, &clock(2, 0, 3_600)), Err(ScopeError::PriceNotValid));
}
