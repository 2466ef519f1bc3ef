//! A stand-in for the publisher of price records: it writes the fields of a
//! price record, so that the adapter can be tried against records of every
//! kind.

use vstd::prelude::*;
use crate::oracles::pyth::{
    only_fields_changed, parse_pyth_price, PythPrice, MAGIC, PRICE_ACCOUNT_LEN, PRICE_TYPE_PRICE,
    STATUS_AUCTION, STATUS_HALTED, STATUS_TRADING, STATUS_UNKNOWN, VERSION_2,
};
use crate::state::Clock;

verus! {

/// The code of the error for a status that is none of the four.
pub const UNKNOWN_STATUS: u32 = 1559;

/// Number of quoters that a record is initialized with.
pub const INITIAL_QUOTERS: u32 = 3;

/// Why the stand-in refused an operation.
#[derive(Clone, Copy, Debug, PartialEq, Eq, Structural)]
pub enum ProgramError {
    /// An error of the stand-in's own, with its code.
    Custom(u32),
    /// The account does not hold what the operation works on.
    InvalidAccountData,
}

/// The accounts of the operations that change a price record.
#[derive(Clone, Debug)]
pub struct SetPrice {
    /// The bytes of the price record.
    pub price: Vec<u8>,
    pub clock: Clock,
}

/// The accounts of the operation that initializes a price record.
#[derive(Clone, Debug)]
pub struct Initialize {
    /// The bytes of the price record.
    pub price: Vec<u8>,
    pub clock: Clock,
}

/// The record that is in `data`, which is long enough for one.
pub open spec fn record_in(data: Seq<u8>) -> PythPrice {
    parse_pyth_price(data)->0
}

/// Makes the account a price record that is being traded at `price`, with
/// the exponent `expo` and the confidence interval `conf`, valid at the
/// current height.
pub fn initialize(ctx: &mut Initialize, price: i64, expo: i32, conf: u64) -> (res: Result<
    (),
    ProgramError,
>)
    requires
        old(ctx).price@.len() >= PRICE_ACCOUNT_LEN,
        conf <= i64::MAX,
    ensures
        res is Ok,
        parse_pyth_price(final(ctx).price@) == Some(
            PythPrice {
                magic: MAGIC,
                ver: VERSION_2,
                atype: record_in(old(ctx).price@).atype,
                ptype: PRICE_TYPE_PRICE,
                expo,
                num_qt: INITIAL_QUOTERS,
                valid_slot: old(ctx).clock.slot,
                twap: price,
                twac: conf as i64,
                price,
                conf,
                status: STATUS_TRADING,
            },
        ),
        only_fields_changed(old(ctx).price@, final(ctx).price@),
        final(ctx).clock == old(ctx).clock,
{
    let atype: u32 = match PythPrice::parse(ctx.price.as_slice()) {
        Some(record) => record.atype,
        None => 0,
    };
    let price_oracle = PythPrice {
        magic: MAGIC,
        ver: VERSION_2,
        atype,
        ptype: PRICE_TYPE_PRICE,
        expo,
        num_qt: INITIAL_QUOTERS,
        valid_slot: ctx.clock.slot,
        twap: price,
        twac: conf as i64,
        price,
        conf,
        status: STATUS_TRADING,
    };
    price_oracle.store(&mut ctx.price);
    Ok(())
}

/// Sets the aggregate price of the record, valid at the current height.
pub fn set_price(ctx: &mut SetPrice, price: i64) -> (res: Result<(), ProgramError>)
    requires
        old(ctx).price@.len() >= PRICE_ACCOUNT_LEN,
    ensures
        res is Ok,
        parse_pyth_price(final(ctx).price@) == Some(
            PythPrice { price, valid_slot: old(ctx).clock.slot, ..record_in(old(ctx).price@) },
        ),
        only_fields_changed(old(ctx).price@, final(ctx).price@),
        final(ctx).clock == old(ctx).clock,
{
    let mut price_oracle = match PythPrice::parse(ctx.price.as_slice()) {
        Some(record) => record,
        None => { return Err(ProgramError::InvalidAccountData); },
    };
    price_oracle.price = price;
    price_oracle.valid_slot = ctx.clock.slot;
    price_oracle.store(&mut ctx.price);
    Ok(())
}

/// The status that a code stands for; nothing for a code beyond the four.
pub open spec fn status_of(code: u8) -> Option<u32> {
    if code == 0 {
        Some(STATUS_UNKNOWN)
    } else if code == 1 {
        Some(STATUS_TRADING)
    } else if code == 2 {
        Some(STATUS_HALTED)
    } else if code == 3 {
        Some(STATUS_AUCTION)
    } else {
        None
    }
}

/// Sets the status of the aggregate to the one that `status` stands for.
///
/// The error with the code `UNKNOWN_STATUS`, and the record as it was, for a
/// code that stands for none.
pub fn set_trading(ctx: &mut SetPrice, status: u8) -> (res: Result<(), ProgramError>)
    requires
        old(ctx).price@.len() >= PRICE_ACCOUNT_LEN,
    ensures
        match status_of(status) {
            Some(code) => res is Ok && parse_pyth_price(final(ctx).price@) == Some(
                PythPrice { status: code, ..record_in(old(ctx).price@) },
            ) && only_fields_changed(old(ctx).price@, final(ctx).price@),
            None => res == Err::<(), ProgramError>(ProgramError::Custom(UNKNOWN_STATUS)) && final(ctx).price@ == old(ctx).price@,
        },
        final(ctx).clock == old(ctx).clock,
{
    let mut price_oracle = match PythPrice::parse(ctx.price.as_slice()) {
        Some(record) => record,
        None => { return Err(ProgramError::InvalidAccountData); },
    };
    if status == 0 {
        price_oracle.status = STATUS_UNKNOWN;
    } else if status == 1 {
        price_oracle.status = STATUS_TRADING;
    } else if status == 2 {
        price_oracle.status = STATUS_HALTED;
    } else if status == 3 {
        price_oracle.status = STATUS_AUCTION;
    } else {
        return Err(ProgramError::Custom(UNKNOWN_STATUS));
    }
    price_oracle.store(&mut ctx.price);
    Ok(())
}

/// Sets the time-weighted average price of the record.
pub fn set_twap(ctx: &mut SetPrice, value: u64) -> (res: Result<(), ProgramError>)
    requires
        old(ctx).price@.len() >= PRICE_ACCOUNT_LEN,
        value <= i64::MAX,
    ensures
        res is Ok,
        parse_pyth_price(final(ctx).price@) == Some(
            PythPrice { twap: value as i64, ..record_in(old(ctx).price@) },
        ),
        only_fields_changed(old(ctx).price@, final(ctx).price@),
        final(ctx).clock == old(ctx).clock,
{
    let mut price_oracle = match PythPrice::parse(ctx.price.as_slice()) {
        Some(record) => record,
        None => { return Err(ProgramError::InvalidAccountData); },
    };
    price_oracle.twap = value as i64;
    price_oracle.store(&mut ctx.price);
    Ok(())
}

/// Sets the confidence interval of the aggregate price.
pub fn set_confidence(ctx: &mut SetPrice, value: u64) -> (res: Result<(), ProgramError>)
    requires
        old(ctx).price@.len() >= PRICE_ACCOUNT_LEN,
    ensures
        res is Ok,
        parse_pyth_price(final(ctx).price@) == Some(
            PythPrice { conf: value, ..record_in(old(ctx).price@) },
        ),
        only_fields_changed(old(ctx).price@, final(ctx).price@),
        final(ctx).clock == old(ctx).clock,
{
    let mut price_oracle = match PythPrice::parse(ctx.price.as_slice()) {
        Some(record) => record,
        None => { return Err(ProgramError::InvalidAccountData); },
    };
    price_oracle.conf = value;
    price_oracle.store(&mut ctx.price);
    Ok(())
}

} // verus!
