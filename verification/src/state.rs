use vstd::prelude::*;
use crate::bytes::{le_u64, lemma_same_but_keeps, read_u64, write_u64};
use crate::pubkey::{default_key, key_at, lemma_key_of, read_key, Pubkey};

verus! {

/// Number of slots in the mapping store and in the price store.
pub const MAX_ENTRIES: usize = 256;

/// A fixed-point number: `value` scaled down by ten to the power `exp`.
#[derive(Clone, Copy, Debug, PartialEq, Eq, Structural)]
pub struct Price {
    pub value: u64,
    pub exp: u64,
}

/// A price with the ledger height and the time of its last refresh.
#[derive(Clone, Copy, Debug, PartialEq, Eq, Structural)]
pub struct DatedPrice {
    pub price: Price,
    pub last_updated_slot: u64,
    pub unix_timestamp: u64,
}

/// What the clock source reports: height, epoch and time.
#[derive(Clone, Copy, Debug, PartialEq, Eq, Structural)]
pub struct Clock {
    pub slot: u64,
    pub epoch_start_timestamp: i64,
    pub epoch: u64,
    pub leader_schedule_epoch: u64,
    pub unix_timestamp: i64,
}

/// The record, written once, that names the two stores.
#[derive(Clone, Copy, Debug, PartialEq, Eq)]
pub struct Configuration {
    pub oracle_prices_pbk: Pubkey,
    pub oracle_mappings_pbk: Pubkey,
}

/// The mapping store: for each slot the address of its price source, or the
/// zero address where the slot has none.
#[derive(Clone, Copy, Debug, PartialEq, Eq)]
pub struct OracleMappings {
    pub price_info_accounts: [Pubkey; 256],
}

/// The price store: for each slot its last refreshed price.
#[derive(Clone, Copy, Debug, PartialEq, Eq)]
pub struct OraclePrices {
    pub prices: [DatedPrice; 256],
}

impl View for OracleMappings {
    type V = Seq<Pubkey>;

    /// The source reference of each slot.
    open spec fn view(&self) -> Seq<Pubkey> {
        self.price_info_accounts@
    }
}

impl View for OraclePrices {
    type V = Seq<DatedPrice>;

    /// The price of each slot.
    open spec fn view(&self) -> Seq<DatedPrice> {
        self.prices@
    }
}

impl Default for Price {
    fn default() -> (p: Price)
        ensures
            p == (Price { value: 0, exp: 0 }),
    {
        Price { value: 0, exp: 0 }
    }
}

impl Default for DatedPrice {
    fn default() -> (p: DatedPrice)
        ensures
            p == (DatedPrice {
                price: Price { value: 0, exp: 0 },
                last_updated_slot: 0,
                unix_timestamp: 0,
            }),
    {
        DatedPrice { price: Price { value: 0, exp: 0 }, last_updated_slot: 0, unix_timestamp: 0 }
    }
}

impl OracleMappings {
    /// A mapping store in which no slot has a source.
    pub fn new() -> (m: OracleMappings)
        ensures
            m@.len() == MAX_ENTRIES,
            forall|i: int| 0 <= i < MAX_ENTRIES ==> #[trigger] m@[i] == default_key(),
    {
        let zero = Pubkey::default();
        OracleMappings { price_info_accounts: [zero; 256] }
    }

    /// The source reference of a slot.
    pub fn get(&self, token: usize) -> (key: Pubkey)
        requires
            token < MAX_ENTRIES,
        ensures
            key == self@[token as int],
    {
        self.price_info_accounts[token]
    }
}

impl OraclePrices {
    /// A price store in which every price is zero.
    pub fn new() -> (p: OraclePrices)
        ensures
            p@.len() == MAX_ENTRIES,
            forall|i: int| 0 <= i < MAX_ENTRIES ==> #[trigger] p@[i] == (DatedPrice {
                price: Price { value: 0, exp: 0 },
                last_updated_slot: 0,
                unix_timestamp: 0,
            }),
    {
        let zero = DatedPrice::default();
        OraclePrices { prices: [zero; 256] }
    }

    /// The price of a slot.
    pub fn get(&self, token: usize) -> (price: DatedPrice)
        requires
            token < MAX_ENTRIES,
        ensures
            price == self@[token as int],
    {
        self.prices[token]
    }
}

/// Length of one reference in the bytes of the mapping store.
pub const MAPPING_RECORD_LEN: usize = 32;

/// Length of one price in the bytes of the price store.
pub const PRICE_RECORD_LEN: usize = 32;

/// Length of the bytes of the mapping store.
pub const MAPPINGS_LEN: usize = 8192;

/// Length of the bytes of the price store.
pub const PRICES_LEN: usize = 8192;

/// The price that starts at `at`: magnitude, exponent, height and time, each
/// of 64 bits with the least significant byte first.
pub open spec fn dated_price_at(b: Seq<u8>, at: int) -> DatedPrice {
    DatedPrice {
        price: Price { value: le_u64(b, at), exp: le_u64(b, at + 8) },
        last_updated_slot: le_u64(b, at + 16),
        unix_timestamp: le_u64(b, at + 24),
    }
}

/// The references that the bytes of a mapping store hold, slot after slot;
/// nothing where the bytes have another length than a mapping store.
pub open spec fn parse_mappings(b: Seq<u8>) -> Option<Seq<Pubkey>> {
    if b.len() != MAPPINGS_LEN {
        None
    } else {
        Some(Seq::new(MAX_ENTRIES as nat, |i: int| key_at(b, i * 32)))
    }
}

/// The prices that the bytes of a price store hold, slot after slot; nothing
/// where the bytes have another length than a price store.
pub open spec fn parse_prices(b: Seq<u8>) -> Option<Seq<DatedPrice>> {
    if b.len() != PRICES_LEN {
        None
    } else {
        Some(Seq::new(MAX_ENTRIES as nat, |i: int| dated_price_at(b, i * 32)))
    }
}

impl OracleMappings {
    /// Decodes a mapping store.
    pub fn from_bytes(data: &[u8]) -> (res: Option<OracleMappings>)
        ensures
            match res {
                Some(mappings) => parse_mappings(data@) == Some(mappings@),
                None => parse_mappings(data@) is None,
            },
    {
        if data.len() != MAPPINGS_LEN {
            return None;
        }
        let mut mappings = OracleMappings::new();
        let mut i: usize = 0;
        while i < MAX_ENTRIES
            invariant
                i <= MAX_ENTRIES,
                data@.len() == MAPPINGS_LEN,
                forall|j: int| 0 <= j < i ==> #[trigger] mappings@[j] == key_at(data@, j * 32),
            decreases MAX_ENTRIES - i,
        {
            let at: usize = i * MAPPING_RECORD_LEN;
            let ghost before = mappings@;
            let key = read_key(data, at);
            mappings.price_info_accounts[i] = key;
            assert(mappings@ == before.update(i as int, key));
            i = i + 1;
        }
        assert(mappings@ =~= parse_mappings(data@)->0);
        Some(mappings)
    }
}

impl OraclePrices {
    /// Decodes a price store.
    pub fn from_bytes(data: &[u8]) -> (res: Option<OraclePrices>)
        ensures
            match res {
                Some(prices) => parse_prices(data@) == Some(prices@),
                None => parse_prices(data@) is None,
            },
    {
        if data.len() != PRICES_LEN {
            return None;
        }
        let mut prices = OraclePrices::new();
        let mut i: usize = 0;
        while i < MAX_ENTRIES
            invariant
                i <= MAX_ENTRIES,
                data@.len() == PRICES_LEN,
                forall|j: int| 0 <= j < i ==> #[trigger] prices@[j] == dated_price_at(data@, j * 32),
            decreases MAX_ENTRIES - i,
        {
            let at: usize = i * PRICE_RECORD_LEN;
            let ghost before = prices@;
            let price = DatedPrice {
                price: Price { value: read_u64(data, at), exp: read_u64(data, at + 8) },
                last_updated_slot: read_u64(data, at + 16),
                unix_timestamp: read_u64(data, at + 24),
            };
            prices.prices[i] = price;
            assert(prices@ == before.update(i as int, price));
            i = i + 1;
        }
        assert(prices@ =~= parse_prices(data@)->0);
        Some(prices)
    }
}

/// Length of the bytes of a configuration.
pub const CONFIGURATION_LEN: usize = 64;

/// The configuration that 64 bytes hold: the address of the price store,
/// then that of the mapping store; nothing for bytes of another length.
pub open spec fn parse_configuration(b: Seq<u8>) -> Option<Configuration> {
    if b.len() != CONFIGURATION_LEN {
        None
    } else {
        Some(Configuration { oracle_prices_pbk: key_at(b, 0), oracle_mappings_pbk: key_at(b, 32) })
    }
}

/// Appends the bytes of an address.
fn push_key(out: &mut Vec<u8>, key: &Pubkey)
    ensures
        final(out)@ == old(out)@ + key@,
{
    let ghost before = out@;
    let mut i: usize = 0;
    while i < 32
        invariant
            i <= 32,
            out@ == before + key@.subrange(0, i as int),
        decreases 32 - i,
    {
        out.push(key.bytes[i]);
        assert(out@ =~= before + key@.subrange(0, i + 1));
        i = i + 1;
    }
    assert(key@.subrange(0, 32) =~= key@);
}

impl Configuration {
    /// Decodes a configuration.
    pub fn from_bytes(data: &[u8]) -> (res: Option<Configuration>)
        ensures
            res == parse_configuration(data@),
    {
        if data.len() != CONFIGURATION_LEN {
            return None;
        }
        Some(
            Configuration {
                oracle_prices_pbk: read_key(data, 0),
                oracle_mappings_pbk: read_key(data, 32),
            },
        )
    }

    /// The bytes of the configuration.
    pub fn to_bytes(&self) -> (out: Vec<u8>)
        ensures
            parse_configuration(out@) == Some(*self),
    {
        let mut out: Vec<u8> = Vec::new();
        push_key(&mut out, &self.oracle_prices_pbk);
        push_key(&mut out, &self.oracle_mappings_pbk);
        proof {
            assert(out@.subrange(0, 32) =~= self.oracle_prices_pbk@);
            assert(out@.subrange(32, 64) =~= self.oracle_mappings_pbk@);
            lemma_key_of(self.oracle_mappings_pbk);
            lemma_key_of(self.oracle_prices_pbk);
        }
        out
    }
}

impl OracleMappings {
    /// The bytes of the mapping store.
    pub fn to_bytes(&self) -> (out: Vec<u8>)
        ensures
            parse_mappings(out@) == Some(self@),
    {
        let mut out: Vec<u8> = Vec::new();
        let mut i: usize = 0;
        while i < MAX_ENTRIES
            invariant
                i <= MAX_ENTRIES,
                out@.len() == i * 32,
                forall|j: int| 0 <= j < i ==> key_at(out@, j * 32) == #[trigger] self@[j],
            decreases MAX_ENTRIES - i,
        {
            let ghost before = out@;
            let key = self.price_info_accounts[i];
            push_key(&mut out, &key);
            proof {
                assert(out@.subrange(i * 32, i * 32 + 32) =~= key@);
                lemma_key_of(key);
                assert forall|j: int| 0 <= j < i implies key_at(out@, j * 32) == #[trigger] self@[j] by {
                    assert(out@.subrange(j * 32, j * 32 + 32) =~= before.subrange(
                        j * 32,
                        j * 32 + 32,
                    ));
                }
            }
            i = i + 1;
        }
        assert(parse_mappings(out@)->0 =~= self@);
        out
    }
}

impl OraclePrices {
    /// The bytes of the price store.
    pub fn to_bytes(&self) -> (out: Vec<u8>)
        ensures
            parse_prices(out@) == Some(self@),
    {
        let mut out: Vec<u8> = Vec::new();
        let mut n: usize = 0;
        while n < PRICES_LEN
            invariant
                n <= PRICES_LEN,
                out@.len() == n,
            decreases PRICES_LEN - n,
        {
            out.push(0);
            n = n + 1;
        }
        let mut i: usize = 0;
        while i < MAX_ENTRIES
            invariant
                i <= MAX_ENTRIES,
                out@.len() == PRICES_LEN,
                forall|j: int| 0 <= j < i ==> dated_price_at(out@, j * 32) == #[trigger] self@[j],
            decreases MAX_ENTRIES - i,
        {
            let at: usize = i * PRICE_RECORD_LEN;
            let price = self.prices[i];
            let ghost s0 = out@;
            write_u64(&mut out, at, price.price.value);
            let ghost s1 = out@;
            write_u64(&mut out, at + 8, price.price.exp);
            let ghost s2 = out@;
            write_u64(&mut out, at + 16, price.last_updated_slot);
            let ghost s3 = out@;
            write_u64(&mut out, at + 24, price.unix_timestamp);
            proof {
                lemma_same_but_keeps(s0, s1, at as int, 8);
                lemma_same_but_keeps(s1, s2, at + 8, 8);
                lemma_same_but_keeps(s2, s3, at + 16, 8);
                lemma_same_but_keeps(s3, out@, at + 24, 8);
                assert(dated_price_at(out@, i * 32) == price);
                assert forall|j: int| 0 <= j < i implies dated_price_at(out@, j * 32)
                    == #[trigger] self@[j] by {
                    assert(dated_price_at(s0, j * 32) == self@[j]);
                }
            }
            i = i + 1;
        }
        assert(parse_prices(out@)->0 =~= self@);
        out
    }
}

} // verus!
