use vstd::prelude::*;
use crate::errors::ScopeError;
use crate::pubkey::{default_key, Pubkey};
use crate::state::{Configuration, DatedPrice, OracleMappings, OraclePrices, Price, MAX_ENTRIES};

verus! {

/// The accounts of the initialization of an instance.
#[derive(Clone, Debug)]
pub struct Initialize {
    /// Who asks for the initialization.
    pub admin: Pubkey,
    /// Whether `admin` signed the request.
    pub admin_is_signer: bool,
    /// The address at which the program says its data lies.
    pub programdata_address: Option<Pubkey>,
    /// The address of the program-data account that was handed in.
    pub program_data: Pubkey,
    /// The upgrade authority that the program-data account names.
    pub upgrade_authority_address: Option<Pubkey>,
    /// The configuration; nothing while the instance has none.
    pub configuration: Option<Configuration>,
    /// The address of the account that is to hold the prices.
    pub oracle_prices_key: Pubkey,
    /// The address of the account that is to hold the mapping.
    pub oracle_mappings_key: Pubkey,
    /// The price store; nothing while it has not been created.
    pub oracle_prices: Option<OraclePrices>,
    /// The mapping store; nothing while it has not been created.
    pub oracle_mappings: Option<OracleMappings>,
}

/// Whether the request comes from the one authority of the instance.
pub open spec fn is_authority(ctx: Initialize) -> bool {
    &&& ctx.admin_is_signer
    &&& ctx.programdata_address == Some(ctx.program_data)
    &&& ctx.upgrade_authority_address == Some(ctx.admin)
}

/// The verdict on an initialization: only the authority may ask for it, and
/// only once.
pub open spec fn initialize_verdict(ctx: Initialize) -> Result<(), ScopeError> {
    if !is_authority(ctx) {
        Err(ScopeError::UnauthorizedMapping)
    } else if ctx.configuration is Some || ctx.oracle_prices is Some || ctx.oracle_mappings
        is Some {
        Err(ScopeError::UnexpectedAccount)
    } else {
        Ok(())
    }
}

/// The price of a slot that has never been refreshed.
pub open spec fn no_price() -> DatedPrice {
    DatedPrice { price: Price { value: 0, exp: 0 }, last_updated_slot: 0, unix_timestamp: 0 }
}

/// Creates the two stores, empty, and the configuration that names them.
///
/// Only the authority may do this, and only while the instance has neither
/// configuration nor stores. On an error nothing has changed.
pub fn process(ctx: &mut Initialize) -> (res: Result<(), ScopeError>)
    ensures
        res == initialize_verdict(*old(ctx)),
        res is Err ==> *final(ctx) == *old(ctx),
        res is Ok ==> {
            &&& final(ctx).configuration == Some(
                Configuration {
                    oracle_prices_pbk: old(ctx).oracle_prices_key,
                    oracle_mappings_pbk: old(ctx).oracle_mappings_key,
                },
            )
            &&& final(ctx).oracle_prices is Some
            &&& final(ctx).oracle_mappings is Some
            &&& forall|i: int|
                0 <= i < MAX_ENTRIES ==> #[trigger] final(ctx).oracle_prices->0@[i] == no_price()
            &&& forall|i: int|
                0 <= i < MAX_ENTRIES ==> #[trigger] final(ctx).oracle_mappings->0@[i]
                    == default_key()
            &&& final(ctx).admin == old(ctx).admin
            &&& final(ctx).admin_is_signer == old(ctx).admin_is_signer
            &&& final(ctx).programdata_address == old(ctx).programdata_address
            &&& final(ctx).program_data == old(ctx).program_data
            &&& final(ctx).upgrade_authority_address == old(ctx).upgrade_authority_address
            &&& final(ctx).oracle_prices_key == old(ctx).oracle_prices_key
            &&& final(ctx).oracle_mappings_key == old(ctx).oracle_mappings_key
        },
{
    if !ctx.admin_is_signer {
        return Err(ScopeError::UnauthorizedMapping);
    }
    let own_data = match &ctx.programdata_address {
        Some(address) => address.equals(&ctx.program_data),
        None => false,
    };
    let is_admin = match &ctx.upgrade_authority_address {
        Some(authority) => authority.equals(&ctx.admin),
        None => false,
    };
    if !own_data || !is_admin {
        return Err(ScopeError::UnauthorizedMapping);
    }
    if ctx.configuration.is_some() || ctx.oracle_prices.is_some() || ctx.oracle_mappings.is_some() {
        return Err(ScopeError::UnexpectedAccount);
    }
    ctx.configuration = Some(
        Configuration {
            oracle_prices_pbk: ctx.oracle_prices_key,
            oracle_mappings_pbk: ctx.oracle_mappings_key,
        },
    );
    ctx.oracle_prices = Some(OraclePrices::new());
    ctx.oracle_mappings = Some(OracleMappings::new());
    Ok(())
}

} // verus!
