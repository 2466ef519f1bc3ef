use scope::errors::ScopeError;
use scope::handlers::handler_refresh_prices::{refresh_price_list, RefreshList, RefreshOutcome};
use scope::handlers::handler_update_mapping::{process, UpdateOracleMapping};
use scope::oracles::{AccountInfo, OracleType};
use scope::pubkey::Pubkey;
use scope::pyth_mock::{initialize, Initialize};
use scope::scope_client::{
    CreateAccount, RefreshOnePrice, ScopeClient, TokenConf, TokenConfList, UpdateMapping,
    MAX_REFRESH_CHUNK_SIZE,
};
use scope::submission::MappingUpload;
use scope::state::{Clock, Configuration, DatedPrice, OracleMappings, OraclePrices, MAX_ENTRIES};
use scope::utils::{find_configuration_address, find_data_address};

fn key(n: u8) -> Pubkey {
    Pubkey::new_from_array([n; 32])
}

fn source(slot: usize) -> Pubkey {
    let mut bytes = [7u8; 32];
    bytes[0] = slot as u8;
    bytes[1] = 1;
    Pubkey::new_from_array(bytes)
}

fn configuration() -> Configuration {
    Configuration { oracle_mappings_pbk: key(50), oracle_prices_pbk: key(51) }
}

fn client() -> ScopeClient {
    ScopeClient::new(key(1), key(2), key(3), Some(configuration()))
}

fn uninitialized() -> ScopeClient {
    ScopeClient::new(key(1), key(2), key(3), None)
}

fn conf(pair: &str, mapping: Pubkey) -> TokenConf {
    TokenConf { token_pair: pair.to_string(), oracle_mapping: mapping }
}

fn with_slots(slots: &[usize]) -> ScopeClient {
    let mut c = client();
    let tokens = slots.iter().map(|s| (*s as u64, conf("pair", source(*s)))).collect();
    c.set_local_mapping(&TokenConfList { tokens }).unwrap();
    c
}

fn clock_at(slot: u64) -> Clock {
    Clock { slot, epoch_start_timestamp: 0, epoch: 5, leader_schedule_epoch: 6, unix_timestamp: 10 }
}

fn feed(address: Pubkey, price: i64, slot: u64) -> AccountInfo {
    let mut ctx = Initialize { price: vec![0u8; 3312], clock: clock_at(slot) };
    initialize(&mut ctx, price, -6, 0).unwrap();
    AccountInfo { key: address, kind: OracleType::Pyth, data: ctx.price }
}

/// The ledger's mapping after it accepted `updates` one after the other.
fn accept(onchain: OracleMappings, updates: &[UpdateMapping]) -> OracleMappings {
    let mut ctx = UpdateOracleMapping {
        admin: key(2),
        admin_is_signer: true,
        programdata_address: Some(key(3)),
        program_data: key(3),
        upgrade_authority_address: Some(key(2)),
        oracle_mappings: Some(onchain),
        pyth_price_info: feed(key(0), 1, 1),
        remaining_accounts: 0,
    };
    for update in updates {
        assert_eq!(update.admin, ctx.admin);
        assert_eq!(update.program_data, ctx.program_data);
        ctx.pyth_price_info = feed(update.pyth_price_info, 1, 1);
        assert_eq!(process(&mut ctx, update.token as usize), Ok(()));
    }
    ctx.oracle_mappings.unwrap()
}

#[test]
fn new_client_knows_the_stores_of_its_configuration() {
    let c = client();
    assert_eq!(c.program_id, key(1));
    assert_eq!(c.payer, key(2));
    assert_eq!(c.program_data_acc, key(3));
    assert_eq!(c.oracle_mappings_acc, key(50));
    assert_eq!(c.oracle_prices_acc, key(51));
    assert_eq!(c.oracle_mappings, [None; MAX_ENTRIES]);
    assert_eq!(c.token_pairs, vec![String::new(); MAX_ENTRIES]);
    let c = uninitialized();
    assert_eq!(c.oracle_mappings_acc, Pubkey::default());
    assert_eq!(c.oracle_prices_acc, Pubkey::default());
}

#[test]
fn local_mapping_takes_the_configuration() {
    let mut c = client();
    let list = TokenConfList {
        tokens: vec![
            (5, conf("SOL/USD", key(10))),
            (0, conf("ETH/USD", key(11))),
            (255, conf("BTC/USD", key(12))),
            (5, conf("SOL/USDC", key(13))),
        ],
    };
    assert_eq!(c.set_local_mapping(&list), Ok(()));
    assert_eq!(c.oracle_mappings[0], Some(key(11)));
    assert_eq!(c.oracle_mappings[5], Some(key(13)));
    assert_eq!(c.oracle_mappings[255], Some(key(12)));
    assert_eq!(c.oracle_mappings[1], None);
    assert_eq!(c.token_pairs[5], "SOL/USDC");
    assert_eq!(c.token_pairs[0], "ETH/USD");
    assert_eq!(c.token_pairs.len(), MAX_ENTRIES);
    let out = c.get_local_mapping().unwrap();
    assert_eq!(
        out.tokens,
        vec![
            (0, conf("ETH/USD", key(11))),
            (5, conf("SOL/USDC", key(13))),
            (255, conf("BTC/USD", key(12)))
        ]
    );
    assert_eq!(client().get_local_mapping().unwrap().tokens, vec![]);
}

#[test]
fn slot_out_of_range_ends_the_configuration() {
    let mut c = client();
    let list = TokenConfList {
        tokens: vec![
            (5, conf("a", key(10))),
            (256, conf("b", key(11))),
            (6, conf("c", key(12))),
        ],
    };
    assert_eq!(c.set_local_mapping(&list), Err(ScopeError::OutOfRange));
    assert_eq!(c.oracle_mappings[5], Some(key(10)));
    assert_eq!(c.oracle_mappings[6], None);
    assert_eq!(c.token_pairs[6], "");
    let list = TokenConfList { tokens: vec![(u64::MAX, conf("b", key(11)))] };
    assert_eq!(c.set_local_mapping(&list), Err(ScopeError::OutOfRange));
}

#[test]
fn upload_plans_one_update_for_each_differing_slot() {
    let c = with_slots(&[1, 4, 9]);
    let mut onchain = OracleMappings::new();
    onchain.price_info_accounts[4] = source(4);
    onchain.price_info_accounts[9] = key(99);
    onchain.price_info_accounts[200] = key(98);
    let updates = c.upload_oracle_mapping(&onchain).unwrap();
    let update = |token: u64, to: Pubkey| UpdateMapping {
        oracle_mappings: key(50),
        pyth_price_info: to,
        program: key(1),
        program_data: key(3),
        admin: key(2),
        token,
    };
    assert_eq!(
        updates,
        vec![update(1, source(1)), update(9, source(9)), update(200, Pubkey::default())]
    );
    // nothing to do once the ledger holds the mirror
    let after = accept(onchain, &updates);
    assert_eq!(c.upload_oracle_mapping(&after), Ok(vec![]));
}

#[test]
fn download_after_upload_gives_the_mirror_back() {
    let c = with_slots(&[0, 3, 28, 29, 255]);
    let mut onchain = OracleMappings::new();
    onchain.price_info_accounts[3] = key(99);
    onchain.price_info_accounts[100] = key(98);
    let updates = c.upload_oracle_mapping(&onchain).unwrap();
    assert_eq!(updates.len(), 6);
    let ledger = accept(onchain, &updates);
    let mut other = client();
    assert_eq!(other.download_oracle_mapping(&ledger), Ok(()));
    assert_eq!(other.oracle_mappings, c.oracle_mappings);
    assert_eq!(other.token_pairs, vec![String::new(); MAX_ENTRIES]);
}

#[test]
fn slot_with_the_zero_address_comes_back_unset() {
    let mut c = client();
    let list = TokenConfList { tokens: vec![(0, conf("zero", Pubkey::default()))] };
    c.set_local_mapping(&list).unwrap();
    assert_eq!(c.oracle_mappings[0], Some(Pubkey::default()));
    let onchain = OracleMappings::new();
    assert_eq!(c.upload_oracle_mapping(&onchain), Ok(vec![]));
    c.download_oracle_mapping(&onchain).unwrap();
    assert_eq!(c.oracle_mappings[0], None);
}

#[test]
fn download_overwrites_the_mirror() {
    let mut c = with_slots(&[1, 2]);
    let mut onchain = OracleMappings::new();
    onchain.price_info_accounts[2] = key(42);
    onchain.price_info_accounts[7] = key(43);
    assert_eq!(c.download_oracle_mapping(&onchain), Ok(()));
    let mut expected = [None; MAX_ENTRIES];
    expected[2] = Some(key(42));
    expected[7] = Some(key(43));
    assert_eq!(c.oracle_mappings, expected);
    assert_eq!(c.token_pairs[1], "pair");
}

#[test]
fn operations_need_the_stores() {
    let mut c = uninitialized();
    c.set_local_mapping(&TokenConfList { tokens: vec![(1, conf("a", key(9)))] }).unwrap();
    let onchain = OracleMappings::new();
    assert_eq!(c.upload_oracle_mapping(&onchain), Err(ScopeError::ConfigurationMissing));
    assert_eq!(c.download_oracle_mapping(&onchain), Err(ScopeError::ConfigurationMissing));
    assert_eq!(c.oracle_mappings[1], Some(key(9)));
    assert!(matches!(c.refresh_all_prices(), Err(ScopeError::ConfigurationMissing)));
    assert_eq!(c.ix_update_mapping(&key(9), 1), Err(ScopeError::ConfigurationMissing));
    assert_eq!(c.ix_refresh_one_price(1), Err(ScopeError::ConfigurationMissing));
    assert_eq!(c.ix_refresh_one_price(256), Err(ScopeError::ConfigurationMissing));
    assert_eq!(c.ix_refresh_8_prices(0), Err(ScopeError::ConfigurationMissing));
    assert_eq!(c.ix_refresh_price_list(vec![1]), Err(ScopeError::ConfigurationMissing));
    assert!(matches!(c.get_prices(&[0u8; 8192]), Err(ScopeError::ConfigurationMissing)));
    assert!(matches!(c.get_program_mapping(&[0u8; 8192]), Err(ScopeError::ConfigurationMissing)));
}

#[test]
fn initialization_installs_the_mirror() {
    let mut c = uninitialized();
    c.set_local_mapping(&TokenConfList {
        tokens: vec![(9, conf("a", key(19))), (2, conf("b", Pubkey::default()))],
    })
    .unwrap();
    let updates = c.init_program(key(51), key(50));
    assert_eq!(c.oracle_prices_acc, key(51));
    assert_eq!(c.oracle_mappings_acc, key(50));
    assert_eq!(updates.len(), 2);
    assert_eq!(updates[0], c.ix_update_mapping(&Pubkey::default(), 2).unwrap());
    assert_eq!(updates[1], c.ix_update_mapping(&key(19), 9).unwrap());
    assert_eq!(updates[1].oracle_mappings, key(50));
}

#[test]
fn initialize_operation_creates_both_stores() {
    let c = uninitialized();
    let op = c.ix_initialize("hubble", key(51), key(50), 1_000, 2_000).unwrap();
    assert_eq!(
        op.create_prices,
        CreateAccount { from: key(2), to: key(51), lamports: 1_000, space: 8_200, owner: key(1) }
    );
    assert_eq!(
        op.create_mappings,
        CreateAccount { from: key(2), to: key(50), lamports: 2_000, space: 8_200, owner: key(1) }
    );
    assert_eq!(op.admin, key(2));
    assert_eq!(op.program, key(1));
    assert_eq!(op.program_data, key(3));
    assert_eq!(op.oracle_prices, key(51));
    assert_eq!(op.oracle_mappings, key(50));
    assert_eq!(op.feed_name, "hubble");
    assert_eq!(Some(op.configuration), find_configuration_address(&key(1), "hubble"));
    assert_ne!(op.configuration, key(1));
    assert_eq!(c.ix_initialize(&"x".repeat(33), key(51), key(50), 0, 0), None);
}

#[test]
fn derived_addresses_are_those_of_the_ledger() {
    let program = solana_program::pubkey::Pubkey::new_from_array([1; 32]);
    let (expected, _) = solana_program::pubkey::Pubkey::find_program_address(
        &[b"conf", b"hubble"],
        &program,
    );
    let found = find_configuration_address(&key(1), "hubble").unwrap();
    assert_eq!(found.to_bytes(), expected.to_bytes());
    assert_ne!(found, find_configuration_address(&key(1), "hubbl").unwrap());
    assert_ne!(found, find_configuration_address(&key(2), "hubble").unwrap());
    assert!(find_configuration_address(&key(1), "").is_some());
    assert!(find_configuration_address(&key(1), &"x".repeat(32)).is_some());
    assert_eq!(find_configuration_address(&key(1), &"x".repeat(33)), None);
    // a name of 32 characters that takes more than 32 bytes
    assert_eq!(find_configuration_address(&key(1), &"\u{e9}".repeat(32)), None);

    let loader = solana_program::bpf_loader_upgradeable::id();
    let (expected, _) =
        solana_program::pubkey::Pubkey::find_program_address(&[&[1u8; 32]], &loader);
    let found = find_data_address(&key(1)).unwrap();
    assert_eq!(found.to_bytes(), expected.to_bytes());
    assert_ne!(found, key(1));
    assert_ne!(found, find_data_address(&key(2)).unwrap());
}

#[test]
fn refresh_operations_name_the_sources_of_the_mirror() {
    let c = with_slots(&[1, 4, 9]);
    assert_eq!(
        c.ix_refresh_one_price(4),
        Ok(RefreshOnePrice {
            oracle_prices: key(51),
            oracle_mappings: key(50),
            pyth_price_info: source(4),
            token: 4
        })
    );
    assert_eq!(c.ix_refresh_one_price(5).unwrap().pyth_price_info, Pubkey::default());
    assert_eq!(c.ix_refresh_one_price(255).unwrap().token, 255);
    assert_eq!(c.ix_refresh_one_price(256), Err(ScopeError::OutOfRange));
    assert_eq!(c.ix_refresh_one_price(u64::MAX), Err(ScopeError::OutOfRange));

    let batch = c.ix_refresh_8_prices(2).unwrap();
    assert_eq!(batch.first_token, 2);
    assert_eq!(batch.oracle_prices, key(51));
    assert_eq!(batch.oracle_mappings, key(50));
    let zero = Pubkey::default();
    assert_eq!(batch.pyth_price_infos, [zero, zero, source(4), zero, zero, zero, zero, source(9)]);
    assert!(c.ix_refresh_8_prices(248).is_ok());
    assert_eq!(c.ix_refresh_8_prices(249), Err(ScopeError::OutOfRange));
    assert_eq!(c.ix_refresh_8_prices(u64::MAX), Err(ScopeError::OutOfRange));

    let list = c.ix_refresh_price_list(vec![9, 0, 1, 255, 9]).unwrap();
    assert_eq!(list.tokens, vec![9, 0, 1, 255, 9]);
    assert_eq!(list.price_infos, vec![source(9), zero, source(1), zero, source(9)]);
    assert_eq!(list.oracle_prices, key(51));
    assert_eq!(list.oracle_mappings, key(50));

    let update = c.ix_update_mapping(&key(77), 1_000).unwrap();
    assert_eq!(update.token, 1_000);
    assert_eq!(update.pyth_price_info, key(77));
}

fn chunks_of(slots: &[usize]) -> Vec<Vec<u8>> {
    let cycle = with_slots(slots).refresh_all_prices().unwrap();
    assert_eq!(cycle.next, 0);
    assert_eq!(cycle.failed, vec![]);
    for op in &cycle.operations {
        assert_eq!(op.oracle_prices, key(51));
        assert_eq!(op.oracle_mappings, key(50));
        let sources: Vec<Pubkey> = op.tokens.iter().map(|t| source(*t as usize)).collect();
        assert_eq!(op.price_infos, sources);
    }
    cycle.operations.iter().map(|op| op.tokens.clone()).collect()
}

#[test]
fn sweep_cuts_the_configured_slots_into_chunks() {
    assert_eq!(MAX_REFRESH_CHUNK_SIZE, 28);
    assert_eq!(chunks_of(&[]), Vec::<Vec<u8>>::new());
    assert_eq!(chunks_of(&[200, 7, 3]), vec![vec![3, 7, 200]]);
    let first: Vec<usize> = (10..38).collect();
    assert_eq!(chunks_of(&first), vec![(10..38).collect::<Vec<u8>>()]);
    let more: Vec<usize> = (10..39).collect();
    assert_eq!(chunks_of(&more), vec![(10..38).collect::<Vec<u8>>(), vec![38]]);
    let all: Vec<usize> = (0..256).collect();
    let chunks = chunks_of(&all);
    assert_eq!(chunks.len(), 10);
    for chunk in &chunks[..9] {
        assert_eq!(chunk.len(), 28);
    }
    assert_eq!(chunks[9], vec![252, 253, 254, 255]);
    let joined: Vec<u8> = chunks.concat();
    assert_eq!(joined, (0..=255).collect::<Vec<u8>>());
}

#[test]
fn sweep_takes_the_slots_divided_by_the_chunk_size_rounded_up() {
    for n in [0usize, 1, 27, 28, 29, 56, 57, 140, 255, 256] {
        let slots: Vec<usize> = (0..n).map(|i| 255 - i).collect();
        let chunks = chunks_of(&slots);
        assert_eq!(chunks.len(), (n + 27) / 28);
        let joined: Vec<u8> = chunks.concat();
        let mut expected: Vec<u8> = slots.iter().map(|s| *s as u8).collect();
        expected.sort();
        assert_eq!(joined, expected);
        for chunk in &chunks {
            assert!(!chunk.is_empty() && chunk.len() <= 28);
        }
    }
}

#[test]
fn sweep_moves_on_after_a_failure() {
    let slots: Vec<usize> = (0..130).collect();
    let c = with_slots(&slots);
    let mut cycle = c.refresh_all_prices().unwrap();
    assert_eq!(cycle.operations.len(), 5);
    let mut mappings = OracleMappings::new();
    for slot in &slots {
        mappings.price_info_accounts[*slot] = source(*slot);
    }
    let mut ledger = RefreshList {
        oracle_prices: Some(OraclePrices::new()),
        oracle_mappings: Some(mappings),
        clock: clock_at(90),
        remaining_accounts: vec![],
    };
    let mut submitted = 0;
    while let Some(op) = cycle.next_operation() {
        let op = op.clone();
        assert_eq!(op.tokens, cycle.operations[submitted].tokens);
        ledger.remaining_accounts = op
            .tokens
            .iter()
            .zip(op.price_infos.iter())
            .map(|(token, source)| {
                let mut account = feed(*source, 1_000 + *token as i64, 80);
                if *token == 70 {
                    // one bad record in the third chunk
                    account.data[224] = 0;
                }
                account
            })
            .collect();
        let answer = refresh_price_list(&mut ledger, &op.tokens);
        if submitted == 2 {
            assert_eq!(answer, Err(ScopeError::PriceNotValid));
        } else {
            assert_eq!(answer, Ok(vec![RefreshOutcome::Updated; op.tokens.len()]));
        }
        assert!(!cycle.is_complete());
        cycle.record(answer.is_ok());
        submitted += 1;
    }
    assert_eq!(submitted, 5);
    assert!(cycle.is_complete());
    assert_eq!(cycle.failed, vec![2]);
    assert_eq!(cycle.next, 5);
    // the chunks that did not fail were applied, the one that failed was not
    let prices = ledger.oracle_prices.unwrap();
    for slot in 0..MAX_ENTRIES {
        let price = prices.get(slot);
        if slot < 130 && !(56..84).contains(&slot) {
            assert_eq!(price.price.value, 1_000 + slot as u64);
            assert_eq!(price.last_updated_slot, 80);
        } else {
            assert_eq!(price, DatedPrice::default());
        }
    }
    // a complete sweep takes no further answer
    cycle.record(false);
    assert_eq!(cycle.failed, vec![2]);
    assert_eq!(cycle.next, 5);
    assert!(cycle.next_operation().is_none());
}

#[test]
fn sweep_notes_every_failure() {
    let slots: Vec<usize> = (0..100).collect();
    let mut cycle = with_slots(&slots).refresh_all_prices().unwrap();
    assert_eq!(cycle.operations.len(), 4);
    for answer in [false, true, false, false] {
        assert!(cycle.next_operation().is_some());
        cycle.record(answer);
    }
    assert!(cycle.is_complete());
    assert_eq!(cycle.failed, vec![0, 2, 3]);
    let mut empty = client().refresh_all_prices().unwrap();
    assert!(empty.is_complete());
    assert!(empty.next_operation().is_none());
    empty.record(false);
    assert_eq!(empty.failed, vec![]);
}

#[test]
fn stores_are_read_from_their_bytes() {
    let c = client();
    let mut data = vec![0u8; 8192];
    data[32 * 3..32 * 3 + 8].copy_from_slice(&1_234u64.to_le_bytes());
    data[32 * 3 + 8..32 * 3 + 16].copy_from_slice(&6u64.to_le_bytes());
    data[32 * 3 + 16..32 * 3 + 24].copy_from_slice(&99u64.to_le_bytes());
    data[32 * 3 + 24..32 * 3 + 32].copy_from_slice(&1_700_000_000u64.to_le_bytes());
    data[8191] = 1;
    let prices = c.get_prices(&data).unwrap();
    assert_eq!(prices.get(3).price.value, 1_234);
    assert_eq!(prices.get(3).price.exp, 6);
    assert_eq!(prices.get(3).last_updated_slot, 99);
    assert_eq!(prices.get(3).unix_timestamp, 1_700_000_000);
    assert_eq!(prices.get(2), DatedPrice::default());
    assert_eq!(prices.get(255).unix_timestamp, 1 << 56);
    assert_eq!(OraclePrices::from_bytes(&data), Some(prices));
    assert!(matches!(c.get_prices(&data[1..]), Err(ScopeError::UnexpectedAccount)));
    data.push(0);
    assert!(matches!(c.get_prices(&data), Err(ScopeError::UnexpectedAccount)));

    let mut data = vec![0u8; 8192];
    data[32 * 7..32 * 8].copy_from_slice(&[5u8; 32]);
    data[8191] = 9;
    let mappings = c.get_program_mapping(&data).unwrap();
    assert_eq!(mappings.get(7), key(5));
    assert_eq!(mappings.get(6), Pubkey::default());
    assert_eq!(mappings.get(255).to_bytes()[31], 9);
    assert_eq!(OracleMappings::from_bytes(&data), Some(mappings));
    assert!(matches!(c.get_program_mapping(&data[..8191]), Err(ScopeError::UnexpectedAccount)));
    assert_eq!(OracleMappings::from_bytes(&[]), None);
}

#[test]
fn upload_ends_with_the_first_failure() {
    let c = with_slots(&[1, 4, 9]);
    let updates = c.upload_oracle_mapping(&OracleMappings::new()).unwrap();
    let mut upload = MappingUpload::new(updates.clone());
    assert!(!upload.is_complete());
    assert_eq!(upload.next_operation(), Some(updates[0]));
    assert_eq!(upload.record(true), Ok(()));
    assert_eq!(upload.next_operation(), Some(updates[1]));
    assert_eq!(upload.record(false), Err(ScopeError::SubmissionError));
    assert_eq!(upload.next_operation(), None);
    assert!(upload.aborted);
    assert_eq!(upload.next, 1);
    assert!(!upload.is_complete());
    // an upload that has ended takes no further answer
    assert_eq!(upload.record(true), Ok(()));
    assert_eq!(upload.record(false), Ok(()));
    assert_eq!(upload.next, 1);
    assert_eq!(upload.next_operation(), None);
}

#[test]
fn upload_is_complete_once_every_update_was_accepted() {
    let c = with_slots(&[1, 4]);
    let updates = c.upload_oracle_mapping(&OracleMappings::new()).unwrap();
    let mut upload = MappingUpload::new(updates);
    let mut submitted = vec![];
    while let Some(update) = upload.next_operation() {
        submitted.push(update.token);
        assert_eq!(upload.record(true), Ok(()));
    }
    assert_eq!(submitted, vec![1, 4]);
    assert!(upload.is_complete());
    assert!(!upload.aborted);
    assert_eq!(upload.record(false), Ok(()));
    assert!(upload.is_complete());
    let mut nothing = MappingUpload::new(vec![]);
    assert!(nothing.is_complete());
    assert_eq!(nothing.next_operation(), None);
    assert_eq!(nothing.record(false), Ok(()));
}
