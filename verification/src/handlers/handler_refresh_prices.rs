use vstd::prelude::*;
use crate::errors::ScopeError;
use crate::oracles::{get_price, source_price, AccountInfo};
use crate::pubkey::{default_key, Pubkey};
use crate::state::{Clock, DatedPrice, OracleMappings, OraclePrices, MAX_ENTRIES};

verus! {

/// Number of slots that a fixed batch refreshes.
pub const BATCH_SIZE: usize = 8;

/// What a refresh did to a slot.
#[derive(Clone, Copy, Debug, PartialEq, Eq, Structural)]
pub enum RefreshOutcome {
    /// The price of the slot was overwritten.
    Updated,
    /// The slot has no source: nothing was done. This is no error.
    Skipped,
}

/// The accounts of the refresh of one slot.
#[derive(Clone, Debug)]
pub struct RefreshOne {
    /// The price store; nothing where it has not been created.
    pub oracle_prices: Option<OraclePrices>,
    /// The mapping store; nothing where it has not been created.
    pub oracle_mappings: Option<OracleMappings>,
    /// The account handed in as the source of the slot.
    pub pyth_price_info: AccountInfo,
    pub clock: Clock,
}

/// The accounts of the refresh of a fixed batch of slots.
#[derive(Clone, Debug)]
pub struct RefreshBatch {
    pub oracle_prices: Option<OraclePrices>,
    pub oracle_mappings: Option<OracleMappings>,
    /// The accounts handed in as the sources of the slots, in the order of
    /// the slots.
    pub pyth_price_infos: Vec<AccountInfo>,
    pub clock: Clock,
}

/// The accounts of the refresh of a list of slots.
#[derive(Clone, Debug)]
pub struct RefreshList {
    pub oracle_prices: Option<OraclePrices>,
    pub oracle_mappings: Option<OracleMappings>,
    pub clock: Clock,
    /// The accounts handed in as the sources of the slots, in the order of
    /// the list.
    pub remaining_accounts: Vec<AccountInfo>,
}

/// The refresh of slot `token` from `account`: what it does and the prices
/// after it.
///
/// A slot without a source is skipped. Otherwise the account must be the
/// source of the slot, its adapter must give a price, and that price must be
/// no older than the one that the slot holds.
pub open spec fn slot_refresh(
    prices: Seq<DatedPrice>,
    mappings: Seq<Pubkey>,
    token: int,
    account: AccountInfo,
    clock: Clock,
) -> Result<(RefreshOutcome, Seq<DatedPrice>), ScopeError> {
    if !(0 <= token < MAX_ENTRIES) {
        Err(ScopeError::OutOfRange)
    } else if mappings[token] == default_key() {
        Ok((RefreshOutcome::Skipped, prices))
    } else if account.key != mappings[token] {
        Err(ScopeError::UnexpectedAccount)
    } else {
        match source_price(account.kind, account.data@, clock) {
            Err(e) => Err(e),
            Ok(price) => if price.last_updated_slot < prices[token].last_updated_slot {
                Err(ScopeError::PriceNotValid)
            } else {
                Ok((RefreshOutcome::Updated, prices.update(token, price)))
            },
        }
    }
}

/// The refresh of the first `n` slots of `tokens`, one after the other, each
/// from the account at its place in `accounts`: the first error of a slot, or
/// what was done to each slot and the prices after all of them.
pub open spec fn refresh_prefix(
    prices: Seq<DatedPrice>,
    mappings: Seq<Pubkey>,
    tokens: Seq<int>,
    accounts: Seq<AccountInfo>,
    clock: Clock,
    n: nat,
) -> Result<(Seq<RefreshOutcome>, Seq<DatedPrice>), ScopeError>
    decreases n,
{
    if n == 0 {
        Ok((Seq::empty(), prices))
    } else {
        match refresh_prefix(prices, mappings, tokens, accounts, clock, (n - 1) as nat) {
            Err(e) => Err(e),
            Ok((outcomes, current)) => match slot_refresh(
                current,
                mappings,
                tokens[n - 1],
                accounts[n - 1],
                clock,
            ) {
                Err(e) => Err(e),
                Ok((outcome, next)) => Ok((outcomes.push(outcome), next)),
            },
        }
    }
}

/// An error among the first slots is the error of the whole.
pub proof fn lemma_first_error_stays(
    prices: Seq<DatedPrice>,
    mappings: Seq<Pubkey>,
    tokens: Seq<int>,
    accounts: Seq<AccountInfo>,
    clock: Clock,
    k: nat,
    n: nat,
)
    requires
        k <= n,
        refresh_prefix(prices, mappings, tokens, accounts, clock, k) is Err,
    ensures
        refresh_prefix(prices, mappings, tokens, accounts, clock, n) == refresh_prefix(
            prices,
            mappings,
            tokens,
            accounts,
            clock,
            k,
        ),
    decreases n,
{
    if k < n {
        lemma_first_error_stays(prices, mappings, tokens, accounts, clock, k, (n - 1) as nat);
    }
}

/// Refreshes one slot of `prices`.
fn refresh_slot(
    prices: &mut OraclePrices,
    mappings: &OracleMappings,
    token: usize,
    account: &AccountInfo,
    clock: &Clock,
) -> (res: Result<RefreshOutcome, ScopeError>)
    requires
        clock.unix_timestamp >= 0,
    ensures
        match slot_refresh(old(prices)@, mappings@, token as int, *account, *clock) {
            Ok((outcome, after)) => res == Ok::<RefreshOutcome, ScopeError>(outcome) && final(prices)@ == after,
            Err(e) => res == Err::<RefreshOutcome, ScopeError>(e) && final(prices)@ == old(prices)@,
        },
{
    if token >= MAX_ENTRIES {
        return Err(ScopeError::OutOfRange);
    }
    let source = mappings.price_info_accounts[token];
    if source.is_default() {
        return Ok(RefreshOutcome::Skipped);
    }
    if !account.key.equals(&source) {
        return Err(ScopeError::UnexpectedAccount);
    }
    let price = match get_price(account.kind, account.data.as_slice(), clock) {
        Ok(price) => price,
        Err(e) => { return Err(e); },
    };
    if price.last_updated_slot < prices.prices[token].last_updated_slot {
        return Err(ScopeError::PriceNotValid);
    }
    prices.prices[token] = price;
    Ok(RefreshOutcome::Updated)
}

/// Refreshes the slots of `tokens` in order, all of them or none.
fn refresh_slots(
    prices: &mut OraclePrices,
    mappings: &OracleMappings,
    tokens: &Vec<usize>,
    accounts: &Vec<AccountInfo>,
    clock: &Clock,
) -> (res: Result<Vec<RefreshOutcome>, ScopeError>)
    requires
        tokens@.len() == accounts@.len(),
        clock.unix_timestamp >= 0,
    ensures
        match refresh_prefix(
            old(prices)@,
            mappings@,
            tokens@.map_values(|t: usize| t as int),
            accounts@,
            *clock,
            tokens@.len(),
        ) {
            Ok((outcomes, after)) => res is Ok && res->Ok_0@ == outcomes && final(prices)@
                == after,
            Err(e) => res == Err::<Vec<RefreshOutcome>, ScopeError>(e) && final(prices)@ == old(prices)@,
        },
{
    let ghost slots = tokens@.map_values(|t: usize| t as int);
    let mut working = *prices;
    let mut outcomes: Vec<RefreshOutcome> = Vec::new();
    let mut i: usize = 0;
    while i < tokens.len()
        invariant
            i <= tokens@.len(),
            tokens@.len() == accounts@.len(),
            clock.unix_timestamp >= 0,
            slots == tokens@.map_values(|t: usize| t as int),
            *prices == *old(prices),
            refresh_prefix(old(prices)@, mappings@, slots, accounts@, *clock, i as nat) == Ok::<
                (Seq<RefreshOutcome>, Seq<DatedPrice>),
                ScopeError,
            >((outcomes@, working@)),
        decreases tokens@.len() - i,
    {
        let ghost before = working@;
        match refresh_slot(&mut working, mappings, tokens[i], &accounts[i], clock) {
            Ok(outcome) => {
                outcomes.push(outcome);
            },
            Err(e) => {
                proof {
                    assert(slots[i as int] == tokens@[i as int] as int);
                    assert(refresh_prefix(
                        old(prices)@,
                        mappings@,
                        slots,
                        accounts@,
                        *clock,
                        (i + 1) as nat,
                    ) == Err::<(Seq<RefreshOutcome>, Seq<DatedPrice>), ScopeError>(e));
                    lemma_first_error_stays(
                        old(prices)@,
                        mappings@,
                        slots,
                        accounts@,
                        *clock,
                        (i + 1) as nat,
                        tokens@.len(),
                    );
                }
                return Err(e);
            },
        }
        proof {
            assert(slots[i as int] == tokens@[i as int] as int);
        }
        i = i + 1;
    }
    *prices = working;
    Ok(outcomes)
}

/// What the refresh of slot `token` does with the accounts `ctx`.
pub open spec fn refresh_one_result(ctx: RefreshOne, token: u64) -> Result<
    (RefreshOutcome, Seq<DatedPrice>),
    ScopeError,
> {
    if ctx.oracle_prices is None || ctx.oracle_mappings is None {
        Err(ScopeError::ConfigurationMissing)
    } else {
        slot_refresh(
            ctx.oracle_prices->0@,
            ctx.oracle_mappings->0@,
            token as int,
            ctx.pyth_price_info,
            ctx.clock,
        )
    }
}

/// Refreshes the price of slot `token` from the account handed in.
///
/// On an error the price store is as before.
pub fn refresh_one_price(ctx: &mut RefreshOne, token: u64) -> (res: Result<
    RefreshOutcome,
    ScopeError,
>)
    requires
        old(ctx).clock.unix_timestamp >= 0,
    ensures
        match refresh_one_result(*old(ctx), token) {
            Ok((outcome, after)) => res == Ok::<RefreshOutcome, ScopeError>(outcome) && final(ctx).oracle_prices is Some && final(ctx).oracle_prices->0@ == after,
            Err(e) => res == Err::<RefreshOutcome, ScopeError>(e) && final(ctx).oracle_prices
                == old(ctx).oracle_prices,
        },
        final(ctx).oracle_mappings == old(ctx).oracle_mappings,
        final(ctx).pyth_price_info == old(ctx).pyth_price_info,
        final(ctx).clock == old(ctx).clock,
{
    let mut prices = match ctx.oracle_prices {
        Some(prices) => prices,
        None => { return Err(ScopeError::ConfigurationMissing); },
    };
    let mappings = match ctx.oracle_mappings {
        Some(mappings) => mappings,
        None => { return Err(ScopeError::ConfigurationMissing); },
    };
    if token >= MAX_ENTRIES as u64 {
        return Err(ScopeError::OutOfRange);
    }
    match refresh_slot(&mut prices, &mappings, token as usize, &ctx.pyth_price_info, &ctx.clock) {
        Ok(outcome) => {
            ctx.oracle_prices = Some(prices);
            Ok(outcome)
        },
        Err(e) => Err(e),
    }
}

/// The slots of the batch that starts at `first_token`.
pub open spec fn batch_slots(first_token: u64) -> Seq<int> {
    Seq::new(BATCH_SIZE as nat, |i: int| first_token + i)
}

/// What the refresh of the batch of slots from `first_token` does with the
/// accounts `ctx`: all of its slots are refreshed, or the first error of a
/// slot fails the batch.
pub open spec fn refresh_batch_result(ctx: RefreshBatch, first_token: u64) -> Result<
    (Seq<RefreshOutcome>, Seq<DatedPrice>),
    ScopeError,
> {
    if ctx.oracle_prices is None || ctx.oracle_mappings is None {
        Err(ScopeError::ConfigurationMissing)
    } else if ctx.pyth_price_infos@.len() != BATCH_SIZE {
        Err(ScopeError::UnexpectedAccount)
    } else if first_token + BATCH_SIZE > MAX_ENTRIES {
        Err(ScopeError::OutOfRange)
    } else {
        refresh_prefix(
            ctx.oracle_prices->0@,
            ctx.oracle_mappings->0@,
            batch_slots(first_token),
            ctx.pyth_price_infos@,
            ctx.clock,
            BATCH_SIZE as nat,
        )
    }
}

/// Refreshes the eight slots from `first_token` on, as one unit: all of them
/// are refreshed, or the price store is as before.
pub fn refresh_batch_prices(ctx: &mut RefreshBatch, first_token: u64) -> (res: Result<
    Vec<RefreshOutcome>,
    ScopeError,
>)
    requires
        old(ctx).clock.unix_timestamp >= 0,
    ensures
        match refresh_batch_result(*old(ctx), first_token) {
            Ok((outcomes, after)) => res is Ok && res->Ok_0@ == outcomes && final(ctx).oracle_prices is Some && final(ctx).oracle_prices->0@ == after,
            Err(e) => res == Err::<Vec<RefreshOutcome>, ScopeError>(e) && final(ctx).oracle_prices == old(ctx).oracle_prices,
        },
        final(ctx).oracle_mappings == old(ctx).oracle_mappings,
        final(ctx).pyth_price_infos == old(ctx).pyth_price_infos,
        final(ctx).clock == old(ctx).clock,
{
    let mut prices = match ctx.oracle_prices {
        Some(prices) => prices,
        None => { return Err(ScopeError::ConfigurationMissing); },
    };
    let mappings = match ctx.oracle_mappings {
        Some(mappings) => mappings,
        None => { return Err(ScopeError::ConfigurationMissing); },
    };
    if ctx.pyth_price_infos.len() != BATCH_SIZE {
        return Err(ScopeError::UnexpectedAccount);
    }
    if first_token > (MAX_ENTRIES - BATCH_SIZE) as u64 {
        return Err(ScopeError::OutOfRange);
    }
    let first: usize = first_token as usize;
    let mut tokens: Vec<usize> = Vec::new();
    let mut i: usize = 0;
    while i < BATCH_SIZE
        invariant
            i <= BATCH_SIZE,
            first + BATCH_SIZE <= MAX_ENTRIES,
            tokens@.len() == i,
            forall|j: int| 0 <= j < i ==> tokens@[j] == first + j,
        decreases BATCH_SIZE - i,
    {
        tokens.push(first + i);
        i = i + 1;
    }
    assert(tokens@.map_values(|t: usize| t as int) =~= batch_slots(first_token));
    match refresh_slots(&mut prices, &mappings, &tokens, &ctx.pyth_price_infos, &ctx.clock) {
        Ok(outcomes) => {
            ctx.oracle_prices = Some(prices);
            Ok(outcomes)
        },
        Err(e) => Err(e),
    }
}

/// The slots that a list of tokens names.
pub open spec fn list_slots(tokens: Seq<u8>) -> Seq<int> {
    tokens.map_values(|t: u8| t as int)
}

/// What the refresh of the slots `tokens` does with the accounts `ctx`: all
/// of the slots are refreshed, in the order of the list, or the first error
/// of a slot fails the list.
pub open spec fn refresh_list_result(ctx: RefreshList, tokens: Seq<u8>) -> Result<
    (Seq<RefreshOutcome>, Seq<DatedPrice>),
    ScopeError,
> {
    if ctx.oracle_prices is None || ctx.oracle_mappings is None {
        Err(ScopeError::ConfigurationMissing)
    } else if ctx.remaining_accounts@.len() != tokens.len() {
        Err(ScopeError::UnexpectedAccount)
    } else {
        refresh_prefix(
            ctx.oracle_prices->0@,
            ctx.oracle_mappings->0@,
            list_slots(tokens),
            ctx.remaining_accounts@,
            ctx.clock,
            tokens.len(),
        )
    }
}

/// Refreshes the slots of `tokens`, as one unit: all of them are refreshed,
/// or the price store is as before.
pub fn refresh_price_list(ctx: &mut RefreshList, tokens: &Vec<u8>) -> (res: Result<
    Vec<RefreshOutcome>,
    ScopeError,
>)
    requires
        old(ctx).clock.unix_timestamp >= 0,
    ensures
        match refresh_list_result(*old(ctx), tokens@) {
            Ok((outcomes, after)) => res is Ok && res->Ok_0@ == outcomes && final(ctx).oracle_prices is Some && final(ctx).oracle_prices->0@ == after,
            Err(e) => res == Err::<Vec<RefreshOutcome>, ScopeError>(e) && final(ctx).oracle_prices == old(ctx).oracle_prices,
        },
        final(ctx).oracle_mappings == old(ctx).oracle_mappings,
        final(ctx).remaining_accounts == old(ctx).remaining_accounts,
        final(ctx).clock == old(ctx).clock,
{
    let mut prices = match ctx.oracle_prices {
        Some(prices) => prices,
        None => { return Err(ScopeError::ConfigurationMissing); },
    };
    let mappings = match ctx.oracle_mappings {
        Some(mappings) => mappings,
        None => { return Err(ScopeError::ConfigurationMissing); },
    };
    if ctx.remaining_accounts.len() != tokens.len() {
        return Err(ScopeError::UnexpectedAccount);
    }
    let mut slots: Vec<usize> = Vec::new();
    let mut i: usize = 0;
    while i < tokens.len()
        invariant
            i <= tokens@.len(),
            slots@.len() == i,
            forall|j: int| 0 <= j < i ==> slots@[j] == tokens@[j],
        decreases tokens@.len() - i,
    {
        slots.push(tokens[i] as usize);
        i = i + 1;
    }
    assert(slots@.map_values(|t: usize| t as int) =~= list_slots(tokens@));
    match refresh_slots(&mut prices, &mappings, &slots, &ctx.remaining_accounts, &ctx.clock) {
        Ok(outcomes) => {
            ctx.oracle_prices = Some(prices);
            Ok(outcomes)
        },
        Err(e) => Err(e),
    }
}

/// The refresh of a slot that has no source is skipped, which is no error,
/// and leaves every price as it is.
pub proof fn lemma_unset_slot_is_skipped(
    prices: Seq<DatedPrice>,
    mappings: Seq<Pubkey>,
    token: int,
    account: AccountInfo,
    clock: Clock,
)
    requires
        0 <= token < MAX_ENTRIES,
        mappings[token] == default_key(),
    ensures
        slot_refresh(prices, mappings, token, account, clock) == Ok::<
            (RefreshOutcome, Seq<DatedPrice>),
            ScopeError,
        >((RefreshOutcome::Skipped, prices)),
{
}

/// A refresh changes no price but that of its slot, and never takes the
/// height of a price back.
pub proof fn lemma_refresh_keeps_heights(
    prices: Seq<DatedPrice>,
    mappings: Seq<Pubkey>,
    token: int,
    account: AccountInfo,
    clock: Clock,
)
    requires
        prices.len() == MAX_ENTRIES,
        slot_refresh(prices, mappings, token, account, clock) is Ok,
    ensures
        ({
            let after = slot_refresh(prices, mappings, token, account, clock)->Ok_0.1;
            &&& after.len() == prices.len()
            &&& forall|i: int| 0 <= i < MAX_ENTRIES && i != token ==> after[i] == prices[i]
            &&& forall|i: int|
                0 <= i < MAX_ENTRIES ==> (#[trigger] after[i]).last_updated_slot
                    >= prices[i].last_updated_slot
        }),
{
}

/// The refresh of several slots never takes the height of a price back, and
/// changes no price of a slot that is not among them.
pub proof fn lemma_refreshes_keep_heights(
    prices: Seq<DatedPrice>,
    mappings: Seq<Pubkey>,
    tokens: Seq<int>,
    accounts: Seq<AccountInfo>,
    clock: Clock,
    n: nat,
)
    requires
        prices.len() == MAX_ENTRIES,
        n <= tokens.len(),
        refresh_prefix(prices, mappings, tokens, accounts, clock, n) is Ok,
    ensures
        ({
            let done = refresh_prefix(prices, mappings, tokens, accounts, clock, n)->Ok_0;
            &&& done.0.len() == n
            &&& done.1.len() == prices.len()
            &&& forall|i: int|
                0 <= i < MAX_ENTRIES ==> (#[trigger] done.1[i]).last_updated_slot
                    >= prices[i].last_updated_slot
            &&& forall|i: int|
                0 <= i < MAX_ENTRIES && !tokens.subrange(0, n as int).contains(i)
                    ==> #[trigger] done.1[i] == prices[i]
        }),
    decreases n,
{
    if n > 0 {
        let before = refresh_prefix(prices, mappings, tokens, accounts, clock, (n - 1) as nat);
        lemma_refreshes_keep_heights(prices, mappings, tokens, accounts, clock, (n - 1) as nat);
        let current = before->Ok_0.1;
        lemma_refresh_keeps_heights(current, mappings, tokens[n - 1], accounts[n - 1], clock);
        let done = refresh_prefix(prices, mappings, tokens, accounts, clock, n)->Ok_0;
        assert forall|i: int|
            0 <= i < MAX_ENTRIES && !tokens.subrange(0, n as int).contains(
                i,
            ) implies #[trigger] done.1[i] == prices[i] by {
            assert(tokens.subrange(0, n as int)[n - 1] == tokens[n - 1]);
            assert(i != tokens[n - 1]);
            let shorter = tokens.subrange(0, n - 1);
            assert forall|j: int| 0 <= j < shorter.len() implies #[trigger] shorter[j] != i by {
                assert(tokens.subrange(0, n as int)[j] == tokens[j]);
            }
            assert(!shorter.contains(i));
        }
    }
}

/// The refresh of a fixed batch does what the refresh of the list of its
/// eight slots does with the same accounts.
pub proof fn lemma_batch_is_a_list(batch: RefreshBatch, list: RefreshList, first_token: u64)
    requires
        first_token + BATCH_SIZE <= MAX_ENTRIES,
        batch.pyth_price_infos@.len() == BATCH_SIZE,
        list.oracle_prices == batch.oracle_prices,
        list.oracle_mappings == batch.oracle_mappings,
        list.clock == batch.clock,
        list.remaining_accounts@ == batch.pyth_price_infos@,
    ensures
        refresh_batch_result(batch, first_token) == refresh_list_result(
            list,
            Seq::new(BATCH_SIZE as nat, |i: int| (first_token + i) as u8),
        ),
{
    let tokens = Seq::new(BATCH_SIZE as nat, |i: int| (first_token + i) as u8);
    assert(list_slots(tokens) =~= batch_slots(first_token));
}

} // verus!
