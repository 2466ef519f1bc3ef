//! The agent that keeps the stores current: its mirror of the mapping and
//! the operations that it plans for the ledger.

use vstd::prelude::*;
use vstd::string::StringSliceAdditionalSpecFns;
use crate::errors::ScopeError;
use crate::handlers::handler_update_mapping::{mappings_after, update_verdict, UpdateOracleMapping};
use crate::pubkey::{default_key, Pubkey};
use crate::state::{
    parse_mappings, parse_prices, Configuration, OracleMappings, OraclePrices, MAPPINGS_LEN,
    MAX_ENTRIES, PRICES_LEN,
};
use crate::submission::RefreshCycle;
use crate::utils::{conf_address, find_configuration_address};

verus! {

/// Most slots that one refresh of a list takes.
pub const MAX_REFRESH_CHUNK_SIZE: usize = 28;

/// What the configuration of the agent says of one slot.
#[derive(Clone, Debug, PartialEq, Eq)]
pub struct TokenConf {
    /// Label of the pair that the slot prices.
    pub token_pair: String,
    /// The source of the price.
    pub oracle_mapping: Pubkey,
}

/// The configuration of the agent: the slots that have a source.
#[derive(Clone, Debug, PartialEq, Eq)]
pub struct TokenConfList {
    pub tokens: Vec<(u64, TokenConf)>,
}

/// The operation that makes an account the source of a slot.
#[derive(Clone, Copy, Debug, PartialEq, Eq)]
pub struct UpdateMapping {
    pub oracle_mappings: Pubkey,
    pub pyth_price_info: Pubkey,
    pub program: Pubkey,
    pub program_data: Pubkey,
    pub admin: Pubkey,
    pub token: u64,
}

/// The agent's view of one deployed instance.
#[derive(Clone, Debug)]
pub struct ScopeClient {
    /// The ledger program.
    pub program_id: Pubkey,
    /// Who pays for and signs the agent's operations.
    pub payer: Pubkey,
    pub program_data_acc: Pubkey,
    /// The price store; the zero address while there is none.
    pub oracle_prices_acc: Pubkey,
    /// The mapping store; the zero address while there is none.
    pub oracle_mappings_acc: Pubkey,
    /// The mirror of the mapping: for each slot its source, if it has one.
    pub oracle_mappings: [Option<Pubkey>; 256],
    /// For each slot the label of its pair.
    pub token_pairs: Vec<String>,
}

/// A mirror in which no slot has a source.
pub open spec fn empty_mirror() -> Seq<Option<Pubkey>> {
    Seq::new(MAX_ENTRIES as nat, |i: int| None::<Pubkey>)
}

/// The reference that the ledger holds for what the mirror holds: the zero
/// address for a slot without a source.
pub open spec fn remote_of(local: Option<Pubkey>) -> Pubkey {
    match local {
        Some(key) => key,
        None => default_key(),
    }
}

/// What the mirror holds for a reference of the ledger: no source for the
/// zero address.
pub open spec fn local_of(remote: Pubkey) -> Option<Pubkey> {
    if remote == default_key() {
        None
    } else {
        Some(remote)
    }
}

/// The mirror that holds what the ledger holds.
pub open spec fn mirror_of(onchain: Seq<Pubkey>) -> Seq<Option<Pubkey>> {
    onchain.map_values(|remote: Pubkey| local_of(remote))
}

/// Number of entries of a configuration, from `from` on, up to the first
/// whose slot is out of range.
pub open spec fn in_range_until(list: Seq<(u64, TokenConf)>, from: int) -> int
    decreases list.len() - from,
{
    if from < 0 || from >= list.len() || list[from].0 >= MAX_ENTRIES {
        from
    } else {
        in_range_until(list, from + 1)
    }
}

/// The mirror after the first `n` entries of a configuration were set.
pub open spec fn mirror_with(mirror: Seq<Option<Pubkey>>, list: Seq<(u64, TokenConf)>, n: nat)
    -> Seq<Option<Pubkey>>
    decreases n,
{
    if n == 0 {
        mirror
    } else {
        mirror_with(mirror, list, (n - 1) as nat).update(
            list[n - 1].0 as int,
            Some(list[n - 1].1.oracle_mapping),
        )
    }
}

/// The labels after the first `n` entries of a configuration were set.
pub open spec fn labels_with(labels: Seq<Seq<char>>, list: Seq<(u64, TokenConf)>, n: nat) -> Seq<
    Seq<char>,
>
    decreases n,
{
    if n == 0 {
        labels
    } else {
        labels_with(labels, list, (n - 1) as nat).update(
            list[n - 1].0 as int,
            list[n - 1].1.token_pair@,
        )
    }
}

impl ScopeClient {
    /// The agent holds a label for every slot.
    pub open spec fn wf(&self) -> bool {
        self.token_pairs@.len() == MAX_ENTRIES
    }

    /// The mirror of the mapping.
    pub open spec fn mirror(&self) -> Seq<Option<Pubkey>> {
        self.oracle_mappings@
    }

    /// The label of each slot.
    pub open spec fn labels(&self) -> Seq<Seq<char>> {
        self.token_pairs@.map_values(|label: String| label@)
    }

    /// Whether the agent knows the stores of the instance.
    pub open spec fn is_initialized(&self) -> bool {
        self.oracle_mappings_acc != default_key()
    }

    /// An agent for the program `program_id`, acting for `payer`.
    ///
    /// `configuration` is what the ledger holds at the address of the
    /// configuration: nothing while the instance has not been initialized.
    /// The mirror starts without any source.
    pub fn new(
        program_id: Pubkey,
        payer: Pubkey,
        program_data_acc: Pubkey,
        configuration: Option<Configuration>,
    ) -> (client: Self)
        ensures
            client.wf(),
            client.program_id == program_id,
            client.payer == payer,
            client.program_data_acc == program_data_acc,
            client.oracle_prices_acc == (match configuration {
                Some(conf) => conf.oracle_prices_pbk,
                None => default_key(),
            }),
            client.oracle_mappings_acc == (match configuration {
                Some(conf) => conf.oracle_mappings_pbk,
                None => default_key(),
            }),
            client.mirror() == empty_mirror(),
            forall|i: int| 0 <= i < MAX_ENTRIES ==> #[trigger] client.labels()[i] == Seq::<
                char,
            >::empty(),
    {
        let (oracle_prices_acc, oracle_mappings_acc) = match configuration {
            Some(conf) => (conf.oracle_prices_pbk, conf.oracle_mappings_pbk),
            None => (Pubkey::default(), Pubkey::default()),
        };
        let mut token_pairs: Vec<String> = Vec::new();
        let mut i: usize = 0;
        while i < MAX_ENTRIES
            invariant
                i <= MAX_ENTRIES,
                token_pairs@.len() == i,
                forall|j: int| 0 <= j < i ==> (#[trigger] token_pairs@[j])@ == Seq::<char>::empty(),
            decreases MAX_ENTRIES - i,
        {
            token_pairs.push(String::new());
            i = i + 1;
        }
        let client = ScopeClient {
            program_id,
            payer,
            program_data_acc,
            oracle_prices_acc,
            oracle_mappings_acc,
            oracle_mappings: [None; 256],
            token_pairs,
        };
        assert(client.mirror() =~= empty_mirror());
        client
    }

    /// Sets the mirror to what a configuration says.
    ///
    /// The entries are set in their order. The first entry whose slot is out
    /// of range ends this with `OutOfRange`: the entries before it have been
    /// set, and none after it.
    pub fn set_local_mapping(&mut self, token_list: &TokenConfList) -> (res: Result<(), ScopeError>)
        requires
            old(self).wf(),
        ensures
            final(self).wf(),
            res is Ok <==> in_range_until(token_list.tokens@, 0) == token_list.tokens@.len(),
            res is Err ==> res == Err::<(), ScopeError>(ScopeError::OutOfRange),
            final(self).mirror() == mirror_with(
                old(self).mirror(),
                token_list.tokens@,
                in_range_until(token_list.tokens@, 0) as nat,
            ),
            final(self).labels() == labels_with(
                old(self).labels(),
                token_list.tokens@,
                in_range_until(token_list.tokens@, 0) as nat,
            ),
            final(self).program_id == old(self).program_id,
            final(self).payer == old(self).payer,
            final(self).program_data_acc == old(self).program_data_acc,
            final(self).oracle_prices_acc == old(self).oracle_prices_acc,
            final(self).oracle_mappings_acc == old(self).oracle_mappings_acc,
    {
        let ghost list = token_list.tokens@;
        let mut i: usize = 0;
        while i < token_list.tokens.len()
            invariant
                i <= list.len(),
                list == token_list.tokens@,
                self.wf(),
                in_range_until(list, 0) == in_range_until(list, i as int),
                self.mirror() == mirror_with(old(self).mirror(), list, i as nat),
                self.labels() == labels_with(old(self).labels(), list, i as nat),
                self.program_id == old(self).program_id,
                self.payer == old(self).payer,
                self.program_data_acc == old(self).program_data_acc,
                self.oracle_prices_acc == old(self).oracle_prices_acc,
                self.oracle_mappings_acc == old(self).oracle_mappings_acc,
            decreases list.len() - i,
        {
            let entry = &token_list.tokens[i];
            if entry.0 >= MAX_ENTRIES as u64 {
                return Err(ScopeError::OutOfRange);
            }
            let idx: usize = entry.0 as usize;
            let ghost labels_before = self.labels();
            self.oracle_mappings[idx] = Some(entry.1.oracle_mapping);
            self.token_pairs[idx] = entry.1.token_pair.clone();
            proof {
                assert(self.labels() =~= labels_before.update(idx as int, entry.1.token_pair@));
            }
            i = i + 1;
        }
        Ok(())
    }

    /// Overwrites the mirror with what the ledger holds: a slot whose
    /// reference is the zero address has no source.
    ///
    /// `ConfigurationMissing`, with the mirror as it was, where the agent
    /// does not know the stores.
    pub fn download_oracle_mapping(&mut self, onchain_mapping: &OracleMappings) -> (res: Result<
        (),
        ScopeError,
    >)
        ensures
            old(self).is_initialized() ==> res is Ok && final(self).mirror() == mirror_of(
                onchain_mapping@,
            ),
            !old(self).is_initialized() ==> res == Err::<(), ScopeError>(
                ScopeError::ConfigurationMissing,
            ) && final(self).mirror() == old(self).mirror(),
            final(self).token_pairs == old(self).token_pairs,
            final(self).program_id == old(self).program_id,
            final(self).payer == old(self).payer,
            final(self).program_data_acc == old(self).program_data_acc,
            final(self).oracle_prices_acc == old(self).oracle_prices_acc,
            final(self).oracle_mappings_acc == old(self).oracle_mappings_acc,
    {
        if self.oracle_mappings_acc.is_default() {
            return Err(ScopeError::ConfigurationMissing);
        }
        let mut i: usize = 0;
        while i < MAX_ENTRIES
            invariant
                i <= MAX_ENTRIES,
                forall|j: int| 0 <= j < i ==> self.oracle_mappings@[j] == local_of(onchain_mapping@[j]),
                self.token_pairs == old(self).token_pairs,
                self.program_id == old(self).program_id,
                self.payer == old(self).payer,
                self.program_data_acc == old(self).program_data_acc,
                self.oracle_prices_acc == old(self).oracle_prices_acc,
                self.oracle_mappings_acc == old(self).oracle_mappings_acc,
            decreases MAX_ENTRIES - i,
        {
            let rem_mapping = onchain_mapping.price_info_accounts[i];
            self.oracle_mappings[i] = if rem_mapping.is_default() {
                None
            } else {
                Some(rem_mapping)
            };
            i = i + 1;
        }
        assert(self.mirror() =~= mirror_of(onchain_mapping@));
        Ok(())
    }
}

/// The slots below `n` that have a source in the mirror, in ascending order.
pub open spec fn configured_upto(mirror: Seq<Option<Pubkey>>, n: nat) -> Seq<int>
    decreases n,
{
    if n == 0 {
        Seq::empty()
    } else if mirror[n - 1] is Some {
        configured_upto(mirror, (n - 1) as nat).push(n - 1)
    } else {
        configured_upto(mirror, (n - 1) as nat)
    }
}

/// The slots that have a source in the mirror, in ascending order.
pub open spec fn configured_slots(mirror: Seq<Option<Pubkey>>) -> Seq<int> {
    configured_upto(mirror, MAX_ENTRIES as nat)
}

/// The configured slots below `n` are fewer than `n`, each below `n`, and
/// ascend.
pub proof fn lemma_configured_upto(mirror: Seq<Option<Pubkey>>, n: nat)
    requires
        n <= mirror.len(),
    ensures
        configured_upto(mirror, n).len() <= n,
        forall|k: int|
            0 <= k < configured_upto(mirror, n).len() ==> 0 <= #[trigger] configured_upto(
                mirror,
                n,
            )[k] < n && mirror[configured_upto(mirror, n)[k]] is Some,
        forall|j: int, k: int|
            0 <= j < k < configured_upto(mirror, n).len() ==> configured_upto(mirror, n)[j]
                < configured_upto(mirror, n)[k],
        forall|i: int|
            0 <= i < n && mirror[i] is Some ==> configured_upto(mirror, n).contains(i),
    decreases n,
{
    if n > 0 {
        let prev = configured_upto(mirror, (n - 1) as nat);
        let all = configured_upto(mirror, n);
        lemma_configured_upto(mirror, (n - 1) as nat);
        assert forall|i: int| 0 <= i < n && mirror[i] is Some implies all.contains(i) by {
            if i < n - 1 {
                assert(prev.contains(i));
                let k = choose|k: int| 0 <= k < prev.len() && prev[k] == i;
                assert(all[k] == i);
            } else {
                assert(all[all.len() - 1] == i);
            }
        }
    }
}

impl ScopeClient {
    /// The update that makes `source` the source of slot `token`.
    pub open spec fn update_of(&self, token: int, source: Pubkey) -> UpdateMapping {
        UpdateMapping {
            oracle_mappings: self.oracle_mappings_acc,
            pyth_price_info: source,
            program: self.program_id,
            program_data: self.program_data_acc,
            admin: self.payer,
            token: token as u64,
        }
    }

    /// The updates that bring the slots below `n` of the ledger's mapping to
    /// the mirror: one for each slot whose reference differs, in ascending
    /// order of the slots.
    pub open spec fn upload_upto(&self, onchain: Seq<Pubkey>, n: nat) -> Seq<UpdateMapping>
        decreases n,
    {
        if n == 0 {
            Seq::empty()
        } else if remote_of(self.mirror()[n - 1]) != onchain[n - 1] {
            self.upload_upto(onchain, (n - 1) as nat).push(
                self.update_of(n - 1, remote_of(self.mirror()[n - 1])),
            )
        } else {
            self.upload_upto(onchain, (n - 1) as nat)
        }
    }

    /// The updates that install the sources of the slots below `n` of the
    /// mirror: one for each slot that has a source, in ascending order.
    pub open spec fn install_upto(&self, n: nat) -> Seq<UpdateMapping>
        decreases n,
    {
        if n == 0 {
            Seq::empty()
        } else {
            match self.mirror()[n - 1] {
                Some(source) => self.install_upto((n - 1) as nat).push(
                    self.update_of(n - 1, source),
                ),
                None => self.install_upto((n - 1) as nat),
            }
        }
    }

    /// The operation that makes `oracle_account` the source of slot `token`.
    ///
    /// `ConfigurationMissing` where the agent does not know the stores.
    pub fn ix_update_mapping(&self, oracle_account: &Pubkey, token: u64) -> (res: Result<
        UpdateMapping,
        ScopeError,
    >)
        ensures
            res == (if self.is_initialized() {
                Ok::<UpdateMapping, ScopeError>(self.update_of(token as int, *oracle_account))
            } else {
                Err::<UpdateMapping, ScopeError>(ScopeError::ConfigurationMissing)
            }),
    {
        if self.oracle_mappings_acc.is_default() {
            return Err(ScopeError::ConfigurationMissing);
        }
        Ok(
            UpdateMapping {
                oracle_mappings: self.oracle_mappings_acc,
                pyth_price_info: *oracle_account,
                program: self.program_id,
                program_data: self.program_data_acc,
                admin: self.payer,
                token,
            },
        )
    }

    /// Takes note of the stores that the initialization of the instance has
    /// created, and plans the updates that install the mirror in the new
    /// mapping store: one for each slot that has a source, in ascending order.
    pub fn init_program(&mut self, oracle_prices_acc: Pubkey, oracle_mappings_acc: Pubkey) -> (updates:
        Vec<UpdateMapping>)
        ensures
            final(self).oracle_prices_acc == oracle_prices_acc,
            final(self).oracle_mappings_acc == oracle_mappings_acc,
            final(self).oracle_mappings == old(self).oracle_mappings,
            final(self).token_pairs == old(self).token_pairs,
            final(self).program_id == old(self).program_id,
            final(self).payer == old(self).payer,
            final(self).program_data_acc == old(self).program_data_acc,
            updates@ == final(self).install_upto(MAX_ENTRIES as nat),
    {
        self.oracle_prices_acc = oracle_prices_acc;
        self.oracle_mappings_acc = oracle_mappings_acc;
        let mut updates: Vec<UpdateMapping> = Vec::new();
        let mut token: usize = 0;
        while token < MAX_ENTRIES
            invariant
                token <= MAX_ENTRIES,
                updates@ == self.install_upto(token as nat),
            decreases MAX_ENTRIES - token,
        {
            match self.oracle_mappings[token] {
                Some(mapping) => {
                    updates.push(
                        UpdateMapping {
                            oracle_mappings: self.oracle_mappings_acc,
                            pyth_price_info: mapping,
                            program: self.program_id,
                            program_data: self.program_data_acc,
                            admin: self.payer,
                            token: token as u64,
                        },
                    );
                },
                None => {},
            }
            token = token + 1;
        }
        updates
    }

    /// Plans the updates that bring the ledger's mapping to the mirror: one
    /// for each slot whose reference differs (set, changed or cleared), in
    /// ascending order of the slots.
    ///
    /// `ConfigurationMissing` where the agent does not know the stores.
    pub fn upload_oracle_mapping(&self, onchain_mapping: &OracleMappings) -> (res: Result<
        Vec<UpdateMapping>,
        ScopeError,
    >)
        ensures
            self.is_initialized() ==> res is Ok && res->Ok_0@ == self.upload_upto(
                onchain_mapping@,
                MAX_ENTRIES as nat,
            ),
            !self.is_initialized() ==> res == Err::<Vec<UpdateMapping>, ScopeError>(
                ScopeError::ConfigurationMissing,
            ),
    {
        if self.oracle_mappings_acc.is_default() {
            return Err(ScopeError::ConfigurationMissing);
        }
        let mut updates: Vec<UpdateMapping> = Vec::new();
        let mut token: usize = 0;
        while token < MAX_ENTRIES
            invariant
                token <= MAX_ENTRIES,
                updates@ == self.upload_upto(onchain_mapping@, token as nat),
            decreases MAX_ENTRIES - token,
        {
            let loc_pk = match self.oracle_mappings[token] {
                Some(mapping) => mapping,
                None => Pubkey::default(),
            };
            let rem_mapping = onchain_mapping.price_info_accounts[token];
            if !rem_mapping.equals(&loc_pk) {
                updates.push(
                    UpdateMapping {
                        oracle_mappings: self.oracle_mappings_acc,
                        pyth_price_info: loc_pk,
                        program: self.program_id,
                        program_data: self.program_data_acc,
                        admin: self.payer,
                        token: token as u64,
                    },
                );
            }
            token = token + 1;
        }
        Ok(updates)
    }

    /// Whether `entry` is what the agent holds for `slot`: the slot, its
    /// source and its label.
    pub open spec fn holds_entry(&self, entry: (u64, TokenConf), slot: int) -> bool {
        &&& 0 <= slot < MAX_ENTRIES
        &&& entry.0 == slot
        &&& Some(entry.1.oracle_mapping) == self.mirror()[slot]
        &&& entry.1.token_pair@ == self.labels()[slot]
    }

    /// The mirror as a configuration: an entry for each slot that has a
    /// source, in ascending order of the slots.
    pub fn get_local_mapping(&self) -> (res: Result<TokenConfList, ScopeError>)
        requires
            self.wf(),
        ensures
            res is Ok,
            res->Ok_0.tokens@.len() == configured_slots(self.mirror()).len(),
            forall|k: int|
                0 <= k < res->Ok_0.tokens@.len() ==> self.holds_entry(
                    #[trigger] res->Ok_0.tokens@[k],
                    configured_slots(self.mirror())[k],
                ),
    {
        let mut tokens: Vec<(u64, TokenConf)> = Vec::new();
        let mut idx: usize = 0;
        while idx < MAX_ENTRIES
            invariant
                idx <= MAX_ENTRIES,
                self.wf(),
                tokens@.len() == configured_upto(self.mirror(), idx as nat).len(),
                forall|k: int|
                    0 <= k < tokens@.len() ==> self.holds_entry(
                        #[trigger] tokens@[k],
                        configured_upto(self.mirror(), idx as nat)[k],
                    ),
            decreases MAX_ENTRIES - idx,
        {
            let ghost before = tokens@;
            let ghost slots = configured_upto(self.mirror(), idx as nat);
            let ghost after = configured_upto(self.mirror(), (idx + 1) as nat);
            match self.oracle_mappings[idx] {
                Some(mapping) => {
                    let pair = self.token_pairs[idx].clone();
                    let entry = (idx as u64, TokenConf { token_pair: pair, oracle_mapping: mapping });
                    proof {
                        assert(after == slots.push(idx as int));
                        assert(self.labels()[idx as int] == self.token_pairs@[idx as int]@);
                        assert(self.holds_entry(entry, idx as int));
                    }
                    tokens.push(entry);
                },
                None => {
                    assert(after == slots);
                },
            }
            proof {
                assert forall|k: int| 0 <= k < tokens@.len() implies self.holds_entry(
                    #[trigger] tokens@[k],
                    after[k],
                ) by {
                    if k < before.len() {
                        assert(tokens@[k] == before[k]);
                        assert(after[k] == slots[k]);
                    }
                }
            }
            idx = idx + 1;
        }
        Ok(TokenConfList { tokens })
    }
}

/// The operation that refreshes one slot.
#[derive(Clone, Copy, Debug, PartialEq, Eq)]
pub struct RefreshOnePrice {
    pub oracle_prices: Pubkey,
    pub oracle_mappings: Pubkey,
    pub pyth_price_info: Pubkey,
    pub token: u64,
}

/// The operation that refreshes eight slots in a row.
#[derive(Clone, Copy, Debug, PartialEq, Eq)]
pub struct RefreshBatchPrices {
    pub oracle_prices: Pubkey,
    pub oracle_mappings: Pubkey,
    /// The sources of the eight slots, in their order.
    pub pyth_price_infos: [Pubkey; 8],
    pub first_token: u64,
}

/// The operation that refreshes a list of slots.
#[derive(Clone, Debug, PartialEq, Eq)]
pub struct RefreshPriceList {
    pub oracle_prices: Pubkey,
    pub oracle_mappings: Pubkey,
    /// The sources of the slots, in the order of `tokens`.
    pub price_infos: Vec<Pubkey>,
    pub tokens: Vec<u8>,
}

/// Number of chunks that `n` slots make: `n` divided by the size of a chunk,
/// rounded up.
pub open spec fn chunk_count(n: nat) -> nat {
    ((n + MAX_REFRESH_CHUNK_SIZE - 1) / (MAX_REFRESH_CHUNK_SIZE as int)) as nat
}

/// Where chunk `k` of `n` slots ends.
pub open spec fn chunk_end(n: nat, k: int) -> int {
    if (k + 1) * MAX_REFRESH_CHUNK_SIZE <= n {
        (k + 1) * MAX_REFRESH_CHUNK_SIZE
    } else {
        n as int
    }
}

/// Chunk `k` of `slots`: the slots from place `k` times the size of a chunk
/// on, as many as a chunk takes or as are left.
pub open spec fn chunk_of(slots: Seq<int>, k: int) -> Seq<int> {
    slots.subrange(k * MAX_REFRESH_CHUNK_SIZE, chunk_end(slots.len(), k))
}

/// The slots as the tokens of an operation.
pub open spec fn tokens_of(slots: Seq<int>) -> Seq<u8> {
    slots.map_values(|slot: int| slot as u8)
}

impl ScopeClient {
    /// The references that the ledger should hold for the slots `tokens`.
    pub open spec fn sources_of(&self, tokens: Seq<u8>) -> Seq<Pubkey> {
        tokens.map_values(|token: u8| remote_of(self.mirror()[token as int]))
    }

    /// The operation that refreshes slot `token` from the source that the
    /// mirror holds for it, or from the zero address where it holds none.
    ///
    /// `ConfigurationMissing` where the agent does not know the stores,
    /// `OutOfRange` for a slot beyond the stores.
    pub fn ix_refresh_one_price(&self, token: u64) -> (res: Result<RefreshOnePrice, ScopeError>)
        ensures
            res == (if !self.is_initialized() {
                Err::<RefreshOnePrice, ScopeError>(ScopeError::ConfigurationMissing)
            } else if token >= MAX_ENTRIES {
                Err::<RefreshOnePrice, ScopeError>(ScopeError::OutOfRange)
            } else {
                Ok::<RefreshOnePrice, ScopeError>(
                    RefreshOnePrice {
                        oracle_prices: self.oracle_prices_acc,
                        oracle_mappings: self.oracle_mappings_acc,
                        pyth_price_info: remote_of(self.mirror()[token as int]),
                        token,
                    },
                )
            }),
    {
        if self.oracle_mappings_acc.is_default() {
            return Err(ScopeError::ConfigurationMissing);
        }
        if token >= MAX_ENTRIES as u64 {
            return Err(ScopeError::OutOfRange);
        }
        let oracle_account = match self.oracle_mappings[token as usize] {
            Some(mapping) => mapping,
            None => Pubkey::default(),
        };
        Ok(
            RefreshOnePrice {
                oracle_prices: self.oracle_prices_acc,
                oracle_mappings: self.oracle_mappings_acc,
                pyth_price_info: oracle_account,
                token,
            },
        )
    }

    /// The operation that refreshes the eight slots from `first_token` on,
    /// each from the source that the mirror holds for it, or from the zero
    /// address where it holds none.
    ///
    /// `ConfigurationMissing` where the agent does not know the stores,
    /// `OutOfRange` where the eight slots do not all lie in the stores.
    pub fn ix_refresh_8_prices(&self, first_token: u64) -> (res: Result<
        RefreshBatchPrices,
        ScopeError,
    >)
        ensures
            !self.is_initialized() ==> res == Err::<RefreshBatchPrices, ScopeError>(
                ScopeError::ConfigurationMissing,
            ),
            self.is_initialized() && first_token + 8 > MAX_ENTRIES ==> res == Err::<
                RefreshBatchPrices,
                ScopeError,
            >(ScopeError::OutOfRange),
            self.is_initialized() && first_token + 8 <= MAX_ENTRIES ==> {
                &&& res is Ok
                &&& res->Ok_0.oracle_prices == self.oracle_prices_acc
                &&& res->Ok_0.oracle_mappings == self.oracle_mappings_acc
                &&& res->Ok_0.first_token == first_token
                &&& forall|i: int|
                    0 <= i < 8 ==> #[trigger] res->Ok_0.pyth_price_infos@[i] == remote_of(
                        self.mirror()[first_token + i],
                    )
            },
    {
        if self.oracle_mappings_acc.is_default() {
            return Err(ScopeError::ConfigurationMissing);
        }
        if first_token > (MAX_ENTRIES - 8) as u64 {
            return Err(ScopeError::OutOfRange);
        }
        let first_token_idx: usize = first_token as usize;
        let mut oracle_accounts: [Pubkey; 8] = [Pubkey::default(); 8];
        let mut i: usize = 0;
        while i < 8
            invariant
                i <= 8,
                first_token_idx + 8 <= MAX_ENTRIES,
                forall|j: int|
                    0 <= j < i ==> #[trigger] oracle_accounts@[j] == remote_of(
                        self.mirror()[first_token_idx + j],
                    ),
            decreases 8 - i,
        {
            oracle_accounts[i] = match self.oracle_mappings[first_token_idx + i] {
                Some(mapping) => mapping,
                None => Pubkey::default(),
            };
            i = i + 1;
        }
        Ok(
            RefreshBatchPrices {
                oracle_prices: self.oracle_prices_acc,
                oracle_mappings: self.oracle_mappings_acc,
                pyth_price_infos: oracle_accounts,
                first_token,
            },
        )
    }

    /// The operation that refreshes the slots `tokens`, each from the source
    /// that the mirror holds for it, or from the zero address where it holds
    /// none. Every token names a slot of the stores.
    ///
    /// `ConfigurationMissing` where the agent does not know the stores.
    pub fn ix_refresh_price_list(&self, tokens: Vec<u8>) -> (res: Result<
        RefreshPriceList,
        ScopeError,
    >)
        ensures
            !self.is_initialized() ==> res == Err::<RefreshPriceList, ScopeError>(
                ScopeError::ConfigurationMissing,
            ),
            self.is_initialized() ==> {
                &&& res is Ok
                &&& res->Ok_0.oracle_prices == self.oracle_prices_acc
                &&& res->Ok_0.oracle_mappings == self.oracle_mappings_acc
                &&& res->Ok_0.tokens@ == tokens@
                &&& res->Ok_0.price_infos@ == self.sources_of(tokens@)
            },
    {
        if self.oracle_mappings_acc.is_default() {
            return Err(ScopeError::ConfigurationMissing);
        }
        let mut price_infos: Vec<Pubkey> = Vec::new();
        let mut i: usize = 0;
        while i < tokens.len()
            invariant
                i <= tokens@.len(),
                price_infos@.len() == i,
                forall|j: int|
                    0 <= j < i ==> #[trigger] price_infos@[j] == remote_of(
                        self.mirror()[tokens@[j] as int],
                    ),
            decreases tokens@.len() - i,
        {
            let oracle_pubkey = match self.oracle_mappings[tokens[i] as usize] {
                Some(mapping) => mapping,
                None => Pubkey::default(),
            };
            price_infos.push(oracle_pubkey);
            i = i + 1;
        }
        assert(price_infos@ =~= self.sources_of(tokens@));
        Ok(
            RefreshPriceList {
                oracle_prices: self.oracle_prices_acc,
                oracle_mappings: self.oracle_mappings_acc,
                price_infos,
                tokens,
            },
        )
    }
}

impl ScopeClient {
    /// The refresh of the slots `chunk`, from the sources that the mirror
    /// holds for them.
    pub open spec fn is_refresh_of(&self, op: RefreshPriceList, chunk: Seq<int>) -> bool {
        &&& op.oracle_prices == self.oracle_prices_acc
        &&& op.oracle_mappings == self.oracle_mappings_acc
        &&& op.tokens@ == tokens_of(chunk)
        &&& op.price_infos@ == self.sources_of(tokens_of(chunk))
    }

    /// Plans a sweep that refreshes every slot that has a source in the
    /// mirror: the slots in ascending order, cut into chunks of at most
    /// `MAX_REFRESH_CHUNK_SIZE`, one refresh of a list for each chunk.
    ///
    /// `ConfigurationMissing` where the agent does not know the stores.
    pub fn refresh_all_prices(&self) -> (res: Result<RefreshCycle, ScopeError>)
        ensures
            !self.is_initialized() ==> res matches Err(ScopeError::ConfigurationMissing),
            self.is_initialized() ==> {
                &&& res is Ok
                &&& res->Ok_0.wf()
                &&& res->Ok_0.next == 0
                &&& res->Ok_0.failed@ == Seq::<usize>::empty()
                &&& res->Ok_0.operations@.len() == chunk_count(
                    configured_slots(self.mirror()).len(),
                )
                &&& forall|k: int|
                    0 <= k < res->Ok_0.operations@.len() ==> self.is_refresh_of(
                        #[trigger] res->Ok_0.operations@[k],
                        chunk_of(configured_slots(self.mirror()), k),
                    )
            },
    {
        if self.oracle_mappings_acc.is_default() {
            return Err(ScopeError::ConfigurationMissing);
        }
        let ghost slots = configured_slots(self.mirror());
        let mut to_refresh_idx: Vec<u8> = Vec::new();
        let mut idx: usize = 0;
        while idx < MAX_ENTRIES
            invariant
                idx <= MAX_ENTRIES,
                to_refresh_idx@ == tokens_of(configured_upto(self.mirror(), idx as nat)),
            decreases MAX_ENTRIES - idx,
        {
            let ghost before = configured_upto(self.mirror(), idx as nat);
            if self.oracle_mappings[idx].is_some() {
                to_refresh_idx.push(idx as u8);
                assert(to_refresh_idx@ =~= tokens_of(before.push(idx as int)));
            }
            idx = idx + 1;
        }
        let len: usize = to_refresh_idx.len();
        assert(len == slots.len());
        let mut operations: Vec<RefreshPriceList> = Vec::new();
        let mut start: usize = 0;
        while start < len
            invariant
                self.is_initialized(),
                len == slots.len(),
                len <= usize::MAX,
                slots == configured_slots(self.mirror()),
                to_refresh_idx@ == tokens_of(slots),
                start <= len,
                start == len || start == operations@.len() * MAX_REFRESH_CHUNK_SIZE,
                start == len ==> operations@.len() == chunk_count(len as nat),
                forall|k: int|
                    0 <= k < operations@.len() ==> self.is_refresh_of(
                        #[trigger] operations@[k],
                        chunk_of(slots, k),
                    ),
            decreases len - start,
        {
            let ghost k = operations@.len() as int;
            let end: usize = if len - start > MAX_REFRESH_CHUNK_SIZE {
                start + MAX_REFRESH_CHUNK_SIZE
            } else {
                len
            };
            let mut chunk: Vec<u8> = Vec::new();
            let mut i: usize = start;
            while i < end
                invariant
                    start <= i <= end <= len,
                    len == to_refresh_idx@.len(),
                    chunk@ == to_refresh_idx@.subrange(start as int, i as int),
                decreases end - i,
            {
                chunk.push(to_refresh_idx[i]);
                assert(chunk@ =~= to_refresh_idx@.subrange(start as int, i + 1));
                i = i + 1;
            }
            proof {
                assert(end == chunk_end(len as nat, k));
                assert(chunk@ =~= tokens_of(chunk_of(slots, k)));
            }
            match self.ix_refresh_price_list(chunk) {
                Ok(op) => {
                    operations.push(op);
                },
                Err(_) => {},
            }
            start = end;
        }
        Ok(RefreshCycle { operations, next: 0, failed: Vec::new() })
    }
}

/// Length of the header that the ledger program puts before the bytes of a
/// store.
pub const STORE_HEADER_LEN: u64 = 8;

/// The creation of an account on the ledger.
#[derive(Clone, Copy, Debug, PartialEq, Eq)]
pub struct CreateAccount {
    /// Who pays for the account.
    pub from: Pubkey,
    /// The address of the new account.
    pub to: Pubkey,
    /// What is paid into the account.
    pub lamports: u64,
    /// Number of bytes of the account.
    pub space: u64,
    /// The program that owns the account.
    pub owner: Pubkey,
}

/// The operation that initializes an instance: it creates the two stores and
/// the configuration that names them.
#[derive(Clone, Debug, PartialEq, Eq)]
pub struct Initialize {
    pub create_prices: CreateAccount,
    pub create_mappings: CreateAccount,
    pub admin: Pubkey,
    pub program: Pubkey,
    pub program_data: Pubkey,
    pub configuration: Pubkey,
    pub oracle_prices: Pubkey,
    pub oracle_mappings: Pubkey,
    pub feed_name: String,
}

impl ScopeClient {
    /// The creation of a store of `len` bytes at `store`, paid with
    /// `lamports` by the agent's payer and owned by the program.
    pub open spec fn creation_of(&self, store: Pubkey, lamports: u64, len: usize) -> CreateAccount {
        CreateAccount {
            from: self.payer,
            to: store,
            lamports,
            space: (STORE_HEADER_LEN + len) as u64,
            owner: self.program_id,
        }
    }

    /// The operation that initializes the instance of the price feed
    /// `price_feed` with stores at two fresh addresses. `prices_rent` and
    /// `mappings_rent` are what the ledger asks for accounts of the stores'
    /// sizes.
    ///
    /// There is none where no address can be derived for the configuration,
    /// as for a name of more than 32 bytes.
    pub fn ix_initialize(
        &self,
        price_feed: &str,
        oracle_prices_acc: Pubkey,
        oracle_mappings_acc: Pubkey,
        prices_rent: u64,
        mappings_rent: u64,
    ) -> (res: Option<Initialize>)
        ensures
            res is Some <==> conf_address(self.program_id@, price_feed.spec_bytes()) is Some,
            res matches Some(op) ==> {
                &&& conf_address(self.program_id@, price_feed.spec_bytes()) == Some(
                    op.configuration@,
                )
                &&& op.create_prices == self.creation_of(oracle_prices_acc, prices_rent, PRICES_LEN)
                &&& op.create_mappings == self.creation_of(
                    oracle_mappings_acc,
                    mappings_rent,
                    MAPPINGS_LEN,
                )
                &&& op.admin == self.payer
                &&& op.program == self.program_id
                &&& op.program_data == self.program_data_acc
                &&& op.oracle_prices == oracle_prices_acc
                &&& op.oracle_mappings == oracle_mappings_acc
                &&& op.feed_name@ == price_feed@
            },
    {
        let configuration_acc = match find_configuration_address(&self.program_id, price_feed) {
            Some(key) => key,
            None => { return None; },
        };
        Some(
            Initialize {
                create_prices: CreateAccount {
                    from: self.payer,
                    to: oracle_prices_acc,
                    lamports: prices_rent,
                    space: STORE_HEADER_LEN + PRICES_LEN as u64,
                    owner: self.program_id,
                },
                create_mappings: CreateAccount {
                    from: self.payer,
                    to: oracle_mappings_acc,
                    lamports: mappings_rent,
                    space: STORE_HEADER_LEN + MAPPINGS_LEN as u64,
                    owner: self.program_id,
                },
                admin: self.payer,
                program: self.program_id,
                program_data: self.program_data_acc,
                configuration: configuration_acc,
                oracle_prices: oracle_prices_acc,
                oracle_mappings: oracle_mappings_acc,
                feed_name: price_feed.to_owned(),
            },
        )
    }

    /// The prices that the bytes read from the price store hold.
    ///
    /// `ConfigurationMissing` where the agent does not know the stores,
    /// `UnexpectedAccount` where the bytes are no price store.
    pub fn get_prices(&self, price_store: &[u8]) -> (res: Result<OraclePrices, ScopeError>)
        ensures
            self.oracle_prices_acc == default_key() ==> res matches Err(
                ScopeError::ConfigurationMissing,
            ),
            self.oracle_prices_acc != default_key() ==> match parse_prices(price_store@) {
                Some(prices) => res is Ok && res->Ok_0@ == prices,
                None => res matches Err(ScopeError::UnexpectedAccount),
            },
    {
        if self.oracle_prices_acc.is_default() {
            return Err(ScopeError::ConfigurationMissing);
        }
        match OraclePrices::from_bytes(price_store) {
            Some(prices) => Ok(prices),
            None => Err(ScopeError::UnexpectedAccount),
        }
    }

    /// The mapping that the bytes read from the mapping store hold.
    ///
    /// `ConfigurationMissing` where the agent does not know the stores,
    /// `UnexpectedAccount` where the bytes are no mapping store.
    pub fn get_program_mapping(&self, mapping_store: &[u8]) -> (res: Result<
        OracleMappings,
        ScopeError,
    >)
        ensures
            !self.is_initialized() ==> res matches Err(ScopeError::ConfigurationMissing),
            self.is_initialized() ==> match parse_mappings(mapping_store@) {
                Some(mappings) => res is Ok && res->Ok_0@ == mappings,
                None => res matches Err(ScopeError::UnexpectedAccount),
            },
    {
        if self.oracle_mappings_acc.is_default() {
            return Err(ScopeError::ConfigurationMissing);
        }
        match OracleMappings::from_bytes(mapping_store) {
            Some(mappings) => Ok(mappings),
            None => Err(ScopeError::UnexpectedAccount),
        }
    }
}

/// The first `k` chunks of `slots`, one behind the other.
pub open spec fn chunks_joined(slots: Seq<int>, k: nat) -> Seq<int>
    decreases k,
{
    if k == 0 {
        Seq::empty()
    } else {
        chunks_joined(slots, (k - 1) as nat) + chunk_of(slots, k - 1)
    }
}

/// The first `k` chunks of `slots` are the slots up to the end of chunk
/// `k - 1`.
pub proof fn lemma_chunks_joined(slots: Seq<int>, k: nat)
    requires
        k <= chunk_count(slots.len()),
    ensures
        chunks_joined(slots, k) == slots.subrange(
            0,
            if k == 0 {
                0
            } else {
                chunk_end(slots.len(), k - 1)
            },
        ),
    decreases k,
{
    if k > 0 {
        lemma_chunks_joined(slots, (k - 1) as nat);
        let end = chunk_end(slots.len(), k - 1);
        assert(chunks_joined(slots, k) =~= slots.subrange(0, end));
    } else {
        assert(chunks_joined(slots, k) =~= slots.subrange(0, 0));
    }
}

/// A sweep over the slots that have a source in a mirror takes as many
/// chunks as the number of these slots divided by the size of a chunk,
/// rounded up. No chunk is empty or longer than the size of a chunk. The
/// chunks, one behind the other, are these slots in ascending order: each
/// slot that has a source once, and no other slot.
pub proof fn lemma_chunks_cover_configured(mirror: Seq<Option<Pubkey>>)
    requires
        mirror.len() == MAX_ENTRIES,
    ensures
        ({
            let slots = configured_slots(mirror);
            let count = chunk_count(slots.len());
            &&& forall|k: int|
                0 <= k < count ==> 1 <= (#[trigger] chunk_of(slots, k)).len()
                    <= MAX_REFRESH_CHUNK_SIZE
            &&& chunks_joined(slots, count) == slots
            &&& slots.no_duplicates()
            &&& forall|j: int, k: int| 0 <= j < k < slots.len() ==> slots[j] < slots[k]
            &&& forall|i: int| 0 <= i < MAX_ENTRIES ==> (mirror[i] is Some <==> slots.contains(i))
        }),
{
    let slots = configured_slots(mirror);
    let count = chunk_count(slots.len());
    lemma_configured_upto(mirror, MAX_ENTRIES as nat);
    lemma_chunks_joined(slots, count);
    assert(chunks_joined(slots, count) =~= slots);
    assert forall|i: int| 0 <= i < MAX_ENTRIES && slots.contains(i) implies mirror[i] is Some by {
        let k = choose|k: int| 0 <= k < slots.len() && slots[k] == i;
        assert(mirror[slots[k]] is Some);
    }
}

/// The mapping of the ledger after the updates `updates` were accepted one
/// after the other.
pub open spec fn ledger_after(onchain: Seq<Pubkey>, updates: Seq<UpdateMapping>) -> Seq<Pubkey>
    decreases updates.len(),
{
    if updates.len() == 0 {
        onchain
    } else {
        ledger_after(onchain, updates.drop_last()).update(
            updates.last().token as int,
            updates.last().pyth_price_info,
        )
    }
}

/// An update that the ledger program accepts changes the mapping of the
/// ledger as `ledger_after` says.
pub proof fn lemma_accepted_update_is_a_step(ctx: UpdateOracleMapping, update: UpdateMapping)
    requires
        update.token <= usize::MAX,
        update_verdict(ctx, update.token as usize) is Ok,
        ctx.pyth_price_info.key == update.pyth_price_info,
    ensures
        mappings_after(ctx, update.token as usize) == Some(
            ledger_after(ctx.oracle_mappings->0@, seq![update]),
        ),
{
    let updates = seq![update];
    assert(updates.drop_last() =~= Seq::<UpdateMapping>::empty());
    assert(updates.last() == update);
    assert(ledger_after(ctx.oracle_mappings->0@, updates.drop_last()) == ctx.oracle_mappings->0@);
}

/// Once the updates that were planned for the slots below `n` are accepted,
/// the ledger holds for these slots what the mirror holds, and for the
/// others what it held.
pub proof fn lemma_upload_installs(client: ScopeClient, onchain: Seq<Pubkey>, n: nat)
    requires
        onchain.len() == MAX_ENTRIES,
        n <= MAX_ENTRIES,
    ensures
        ({
            let ledger = ledger_after(onchain, client.upload_upto(onchain, n));
            &&& ledger.len() == MAX_ENTRIES
            &&& forall|i: int| 0 <= i < n ==> #[trigger] ledger[i] == remote_of(client.mirror()[i])
            &&& forall|i: int| n <= i < MAX_ENTRIES ==> #[trigger] ledger[i] == onchain[i]
        }),
    decreases n,
{
    if n > 0 {
        lemma_upload_installs(client, onchain, (n - 1) as nat);
        let shorter = client.upload_upto(onchain, (n - 1) as nat);
        if remote_of(client.mirror()[n - 1]) != onchain[n - 1] {
            let update = client.update_of(n - 1, remote_of(client.mirror()[n - 1]));
            assert(shorter.push(update).drop_last() =~= shorter);
        }
    }
}

/// Where the ledger accepts every update that `upload_oracle_mapping` plans,
/// what `download_oracle_mapping` then reads is the mirror that was
/// uploaded. This holds of a mirror in which no slot has the zero address as
/// its source: such a slot comes back without a source.
pub proof fn lemma_download_after_upload(client: ScopeClient, onchain: Seq<Pubkey>)
    requires
        onchain.len() == MAX_ENTRIES,
        forall|i: int| 0 <= i < MAX_ENTRIES ==> client.mirror()[i] != Some(default_key()),
    ensures
        mirror_of(ledger_after(onchain, client.upload_upto(onchain, MAX_ENTRIES as nat)))
            == client.mirror(),
{
    lemma_upload_installs(client, onchain, MAX_ENTRIES as nat);
    let ledger = ledger_after(onchain, client.upload_upto(onchain, MAX_ENTRIES as nat));
    assert(mirror_of(ledger) =~= client.mirror());
}

} // verus!
