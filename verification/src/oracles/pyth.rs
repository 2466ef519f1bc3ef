use vstd::prelude::*;
use crate::bytes::{
    le_i32, le_i64, le_u32, le_u64, lemma_same_but_keeps, read_i32, read_i64, read_u32, read_u64,
    write_i32, write_i64, write_u32, write_u64,
};
use crate::errors::ScopeError;
use crate::state::{Clock, DatedPrice, Price};

verus! {

/// The number that every record of the publisher starts with.
pub const MAGIC: u32 = 0xa1b2c3d4;

/// The version of the record layout that is read here.
pub const VERSION_2: u32 = 2;

/// Length of a price record.
pub const PRICE_ACCOUNT_LEN: usize = 3312;

/// Price type of a record that holds a price.
pub const PRICE_TYPE_PRICE: u32 = 1;

/// Status of an aggregate that nothing is known of.
pub const STATUS_UNKNOWN: u32 = 0;

/// Status of an aggregate that is being traded: the only one that is valid.
pub const STATUS_TRADING: u32 = 1;

/// Status of an aggregate whose trading is halted.
pub const STATUS_HALTED: u32 = 2;

/// Status of an aggregate in auction.
pub const STATUS_AUCTION: u32 = 3;

/// Fewest quoters that an aggregate must be made of.
pub const MIN_QUOTERS: u32 = 3;

/// A price is trusted where its confidence interval, this many times over,
/// is no wider than the price: within two percent.
pub const ORACLE_CONFIDENCE_FACTOR: u64 = 50;

/// Where the fields that are read start in a price record.
pub const MAGIC_AT: usize = 0;

pub const VER_AT: usize = 4;

pub const ATYPE_AT: usize = 8;

pub const PTYPE_AT: usize = 16;

pub const EXPO_AT: usize = 20;

pub const NUM_QT_AT: usize = 28;

pub const VALID_SLOT_AT: usize = 40;

pub const TWAP_AT: usize = 48;

pub const TWAC_AT: usize = 72;

pub const AGG_PRICE_AT: usize = 208;

pub const AGG_CONF_AT: usize = 216;

pub const AGG_STATUS_AT: usize = 224;

/// What is read of a price record.
#[derive(Clone, Copy, Debug, PartialEq, Eq, Structural)]
pub struct PythPrice {
    /// Magic number of the publisher.
    pub magic: u32,
    /// Version of the layout.
    pub ver: u32,
    /// Type of the account.
    pub atype: u32,
    /// Type of the price.
    pub ptype: u32,
    /// Exponent of the price, to the base ten.
    pub expo: i32,
    /// Number of quoters that make up the aggregate.
    pub num_qt: u32,
    /// Height at which the aggregate is valid.
    pub valid_slot: u64,
    /// Time-weighted average price.
    pub twap: i64,
    /// Time-weighted average confidence interval.
    pub twac: i64,
    /// Aggregate price.
    pub price: i64,
    /// Confidence interval of the aggregate price.
    pub conf: u64,
    /// Status of the aggregate.
    pub status: u32,
}

/// The price record that `b` starts with: each field at its place in the
/// fixed layout, least significant byte first. There is none where `b` is
/// shorter than a record.
pub open spec fn parse_pyth_price(b: Seq<u8>) -> Option<PythPrice> {
    if b.len() < 3312 {
        None
    } else {
        Some(
            PythPrice {
                magic: le_u32(b, 0),
                ver: le_u32(b, 4),
                atype: le_u32(b, 8),
                ptype: le_u32(b, 16),
                expo: le_i32(b, 20),
                num_qt: le_u32(b, 28),
                valid_slot: le_u64(b, 40),
                twap: le_i64(b, 48),
                twac: le_i64(b, 72),
                price: le_i64(b, 208),
                conf: le_u64(b, 216),
                status: le_u32(b, 224),
            },
        )
    }
}

impl PythPrice {
    /// Decodes the price record that `data` starts with.
    pub fn parse(data: &[u8]) -> (res: Option<PythPrice>)
        ensures
            res == parse_pyth_price(data@),
    {
        if data.len() < PRICE_ACCOUNT_LEN {
            return None;
        }
        Some(
            PythPrice {
                magic: read_u32(data, MAGIC_AT),
                ver: read_u32(data, VER_AT),
                atype: read_u32(data, ATYPE_AT),
                ptype: read_u32(data, PTYPE_AT),
                expo: read_i32(data, EXPO_AT),
                num_qt: read_u32(data, NUM_QT_AT),
                valid_slot: read_u64(data, VALID_SLOT_AT),
                twap: read_i64(data, TWAP_AT),
                twac: read_i64(data, TWAC_AT),
                price: read_i64(data, AGG_PRICE_AT),
                conf: read_u64(data, AGG_CONF_AT),
                status: read_u32(data, AGG_STATUS_AT),
            },
        )
    }
}

/// Whether byte `i` of a price record belongs to a field that is read here.
pub open spec fn is_field_byte(i: int) -> bool {
    ||| 0 <= i < 12
    ||| 16 <= i < 24
    ||| 28 <= i < 32
    ||| 40 <= i < 56
    ||| 72 <= i < 80
    ||| 208 <= i < 228
}

/// `after` is `before` but for the fields that are read here.
pub open spec fn only_fields_changed(before: Seq<u8>, after: Seq<u8>) -> bool {
    &&& after.len() == before.len()
    &&& forall|i: int| 0 <= i < before.len() && !is_field_byte(i) ==> after[i] == before[i]
}

impl PythPrice {
    /// Writes the fields of the record to their places in `data` and leaves
    /// the other bytes as they are.
    pub fn store(&self, data: &mut Vec<u8>)
        requires
            old(data)@.len() >= PRICE_ACCOUNT_LEN,
        ensures
            parse_pyth_price(final(data)@) == Some(*self),
            only_fields_changed(old(data)@, final(data)@),
    {
        let ghost s0 = data@;
        write_u32(data, MAGIC_AT, self.magic);
        let ghost s1 = data@;
        write_u32(data, VER_AT, self.ver);
        let ghost s2 = data@;
        write_u32(data, ATYPE_AT, self.atype);
        let ghost s3 = data@;
        write_u32(data, PTYPE_AT, self.ptype);
        let ghost s4 = data@;
        write_i32(data, EXPO_AT, self.expo);
        let ghost s5 = data@;
        write_u32(data, NUM_QT_AT, self.num_qt);
        let ghost s6 = data@;
        proof {
            lemma_same_but_keeps(s1, s2, 4, 4);
            lemma_same_but_keeps(s2, s3, 8, 4);
            lemma_same_but_keeps(s3, s4, 16, 4);
            lemma_same_but_keeps(s4, s5, 20, 4);
            lemma_same_but_keeps(s5, s6, 28, 4);
        }
        write_u64(data, VALID_SLOT_AT, self.valid_slot);
        let ghost s7 = data@;
        write_i64(data, TWAP_AT, self.twap);
        let ghost s8 = data@;
        write_i64(data, TWAC_AT, self.twac);
        let ghost s9 = data@;
        write_i64(data, AGG_PRICE_AT, self.price);
        let ghost s10 = data@;
        write_u64(data, AGG_CONF_AT, self.conf);
        let ghost s11 = data@;
        write_u32(data, AGG_STATUS_AT, self.status);
        proof {
            lemma_same_but_keeps(s6, s7, 40, 8);
            lemma_same_but_keeps(s7, s8, 48, 8);
            lemma_same_but_keeps(s8, s9, 72, 8);
            lemma_same_but_keeps(s9, s10, 208, 8);
            lemma_same_but_keeps(s10, s11, 216, 8);
            lemma_same_but_keeps(s11, data@, 224, 4);
        }
    }
}

/// Whether a record has the shape of a price record: the publisher's magic
/// number, the layout version read here, and the price type of a price.
pub open spec fn has_price_shape(p: PythPrice) -> bool {
    p.magic == MAGIC && p.ver == VERSION_2 && p.ptype == PRICE_TYPE_PRICE
}

/// Whether the price of a record can be trusted: the exponent is not
/// positive, the aggregate is being traded and made of enough quoters, the
/// price is positive, and the confidence interval is within two percent of it.
pub open spec fn is_trusted(p: PythPrice) -> bool {
    &&& p.expo <= 0
    &&& p.status == STATUS_TRADING
    &&& p.num_qt >= MIN_QUOTERS
    &&& p.price > 0
    &&& p.conf * ORACLE_CONFIDENCE_FACTOR <= p.price
}

/// The verdict on a record: `UnexpectedAccount` for the wrong shape, else
/// `PriceNotValid` for a price that cannot be trusted.
pub open spec fn pyth_validity(p: PythPrice) -> Result<(), ScopeError> {
    if !has_price_shape(p) {
        Err(ScopeError::UnexpectedAccount)
    } else if !is_trusted(p) {
        Err(ScopeError::PriceNotValid)
    } else {
        Ok(())
    }
}

/// Checks the shape of a price record and whether its price can be trusted.
pub fn validate_pyth_price(pyth_price: &PythPrice) -> (res: Result<(), ScopeError>)
    ensures
        res == pyth_validity(*pyth_price),
{
    if pyth_price.magic != MAGIC || pyth_price.ver != VERSION_2 || pyth_price.ptype
        != PRICE_TYPE_PRICE {
        return Err(ScopeError::UnexpectedAccount);
    }
    if pyth_price.expo > 0 || pyth_price.status != STATUS_TRADING || pyth_price.num_qt
        < MIN_QUOTERS || pyth_price.price <= 0 {
        return Err(ScopeError::PriceNotValid);
    }
    let factor: u128 = ORACLE_CONFIDENCE_FACTOR as u128;
    assert(factor == 50);
    let width: u128 = (pyth_price.conf as u128) * factor;
    if width > pyth_price.price as u128 {
        return Err(ScopeError::PriceNotValid);
    }
    Ok(())
}

/// The price that a valid record holds at the time `clock`: the aggregate
/// price with the exponent's sign turned, dated with the height at which the
/// aggregate is valid.
pub open spec fn dated_price_of(p: PythPrice, clock: Clock) -> DatedPrice {
    DatedPrice {
        price: Price { value: p.price as u64, exp: (-(p.expo as int)) as u64 },
        last_updated_slot: p.valid_slot,
        unix_timestamp: clock.unix_timestamp as u64,
    }
}

/// The price that the adapter gives for a decoded record at the time `clock`.
pub open spec fn pyth_record_price(p: PythPrice, clock: Clock) -> Result<DatedPrice, ScopeError> {
    match pyth_validity(p) {
        Err(e) => Err(e),
        Ok(_) => Ok(dated_price_of(p, clock)),
    }
}

/// The price that the adapter gives for the record `b` at the time `clock`.
pub open spec fn pyth_price(b: Seq<u8>, clock: Clock) -> Result<DatedPrice, ScopeError> {
    match parse_pyth_price(b) {
        None => Err(ScopeError::UnexpectedAccount),
        Some(p) => pyth_record_price(p, clock),
    }
}

/// The price of a decoded record, where it is valid.
pub fn price_of_record(pyth_price: &PythPrice, current_clock: &Clock) -> (res: Result<
    DatedPrice,
    ScopeError,
>)
    requires
        current_clock.unix_timestamp >= 0,
    ensures
        res == pyth_record_price(*pyth_price, *current_clock),
{
    match validate_pyth_price(pyth_price) {
        Err(e) => { return Err(e); },
        Ok(_) => {},
    }
    let exp: u64 = (0 - (pyth_price.expo as i64)) as u64;
    Ok(
        DatedPrice {
            price: Price { value: pyth_price.price as u64, exp },
            last_updated_slot: pyth_price.valid_slot,
            unix_timestamp: current_clock.unix_timestamp as u64,
        },
    )
}

/// The price that a price record holds.
///
/// `UnexpectedAccount` where the data is too short for a record or has the
/// wrong shape, `PriceNotValid` where the price cannot be trusted.
pub fn get_price(pyth_price_data: &[u8], current_clock: &Clock) -> (res: Result<
    DatedPrice,
    ScopeError,
>)
    requires
        current_clock.unix_timestamp >= 0,
    ensures
        res == pyth_price(pyth_price_data@, *current_clock),
{
    match PythPrice::parse(pyth_price_data) {
        None => Err(ScopeError::UnexpectedAccount),
        Some(record) => price_of_record(&record, current_clock),
    }
}

} // verus!
