use scope::errors::ScopeError;
use scope::handlers::handler_initialize::{process, Initialize};
use scope::pubkey::Pubkey;
use scope::state::{
    Configuration, DatedPrice, OracleMappings, OraclePrices, Price, CONFIGURATION_LEN,
    MAPPINGS_LEN, MAX_ENTRIES, PRICES_LEN,
};

fn key(n: u8) -> Pubkey {
    Pubkey::new_from_array([n; 32])
}

fn init_ctx() -> Initialize {
    Initialize {
        admin: key(1),
        admin_is_signer: true,
        programdata_address: Some(key(2)),
        program_data: key(2),
        upgrade_authority_address: Some(key(1)),
        configuration: None,
        oracle_prices_key: key(3),
        oracle_mappings_key: key(4),
        oracle_prices: None,
        oracle_mappings: None,
    }
}

#[test]
fn stores_have_the_same_capacity() {
    assert_eq!(MAX_ENTRIES, 256);
    assert_eq!(OracleMappings::new().price_info_accounts.len(), MAX_ENTRIES);
    assert_eq!(OraclePrices::new().prices.len(), MAX_ENTRIES);
    assert_eq!(MAPPINGS_LEN, MAX_ENTRIES * 32);
    assert_eq!(PRICES_LEN, MAX_ENTRIES * 32);
    assert_eq!(OracleMappings::new().price_info_accounts, [Pubkey::default(); MAX_ENTRIES]);
    assert_eq!(OraclePrices::new().prices, [DatedPrice::default(); MAX_ENTRIES]);
    assert_eq!(DatedPrice::default().price, Price::default());
    assert_eq!(Price::default(), Price { value: 0, exp: 0 });
}

#[test]
fn mapping_store_goes_through_bytes() {
    let mut mappings = OracleMappings::new();
    for i in 0..MAX_ENTRIES {
        if i % 3 != 0 {
            let mut bytes = [i as u8; 32];
            bytes[31] = 0xaa;
            mappings.price_info_accounts[i] = Pubkey::new_from_array(bytes);
        }
    }
    let bytes = mappings.to_bytes();
    assert_eq!(bytes.len(), MAPPINGS_LEN);
    assert_eq!(&bytes[32..64], &mappings.get(1).to_bytes());
    assert_eq!(&bytes[0..32], &[0u8; 32]);
    assert_eq!(bytes[32 * 255 + 31], 0);
    assert_eq!(bytes[32 * 254 + 31], 0xaa);
    assert_eq!(OracleMappings::from_bytes(&bytes), Some(mappings));
    assert_eq!(OracleMappings::new().to_bytes(), vec![0u8; MAPPINGS_LEN]);
}

#[test]
fn price_store_goes_through_bytes() {
    let mut prices = OraclePrices::new();
    for i in 0..MAX_ENTRIES {
        prices.prices[i] = DatedPrice {
            price: Price { value: u64::MAX - i as u64, exp: i as u64 },
            last_updated_slot: (i as u64) << 40,
            unix_timestamp: 1_700_000_000 + i as u64,
        };
    }
    let bytes = prices.to_bytes();
    assert_eq!(bytes.len(), PRICES_LEN);
    assert_eq!(&bytes[0..8], &u64::MAX.to_le_bytes());
    assert_eq!(&bytes[32 * 7 + 8..32 * 7 + 16], &7u64.to_le_bytes());
    assert_eq!(&bytes[32 * 7 + 16..32 * 7 + 24], &(7u64 << 40).to_le_bytes());
    assert_eq!(&bytes[32 * 255 + 24..], &1_700_000_255u64.to_le_bytes());
    assert_eq!(OraclePrices::from_bytes(&bytes), Some(prices));
    assert_eq!(OraclePrices::from_bytes(&bytes[..PRICES_LEN - 1]), None);
}

#[test]
fn configuration_goes_through_bytes() {
    let conf = Configuration { oracle_prices_pbk: key(7), oracle_mappings_pbk: key(8) };
    let bytes = conf.to_bytes();
    assert_eq!(bytes.len(), CONFIGURATION_LEN);
    assert_eq!(&bytes[..32], &[7u8; 32]);
    assert_eq!(&bytes[32..], &[8u8; 32]);
    assert_eq!(Configuration::from_bytes(&bytes), Some(conf));
    assert_eq!(Configuration::from_bytes(&bytes[1..]), None);
    assert_eq!(Configuration::from_bytes(&[0u8; 65]), None);
}

#[test]
fn initialization_creates_empty_stores() {
    let mut ctx = init_ctx();
    assert_eq!(process(&mut ctx), Ok(()));
    assert_eq!(
        ctx.configuration,
        Some(Configuration { oracle_prices_pbk: key(3), oracle_mappings_pbk: key(4) })
    );
    assert_eq!(ctx.oracle_prices, Some(OraclePrices::new()));
    assert_eq!(ctx.oracle_mappings, Some(OracleMappings::new()));
}

#[test]
fn instance_is_initialized_once_and_by_its_authority() {
    let mut ctx = init_ctx();
    assert_eq!(process(&mut ctx), Ok(()));
    let conf = ctx.configuration;
    ctx.oracle_prices_key = key(9);
    assert_eq!(process(&mut ctx), Err(ScopeError::UnexpectedAccount));
    assert_eq!(ctx.configuration, conf);

    let mut ctx = init_ctx();
    ctx.oracle_mappings = Some(OracleMappings::new());
    assert_eq!(process(&mut ctx), Err(ScopeError::UnexpectedAccount));
    assert_eq!(ctx.configuration, None);

    for breach in 0..4 {
        let mut ctx = init_ctx();
        match breach {
            0 => ctx.admin_is_signer = false,
            1 => ctx.upgrade_authority_address = Some(key(5)),
            2 => ctx.programdata_address = None,
            _ => ctx.program_data = key(6),
        }
        assert_eq!(process(&mut ctx), Err(ScopeError::UnauthorizedMapping));
        assert_eq!(ctx.configuration, None);
        assert_eq!(ctx.oracle_prices, None);
        assert_eq!(ctx.oracle_mappings, None);
    }
}
