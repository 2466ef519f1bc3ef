use vstd::prelude::*;
use crate::errors::ScopeError;
use crate::oracles::{source_validity, validate, AccountInfo};
use crate::pubkey::Pubkey;
use crate::state::{OracleMappings, MAX_ENTRIES};

verus! {

/// The accounts of an update of the mapping.
#[derive(Clone, Debug)]
pub struct UpdateOracleMapping {
    /// Who asks for the update.
    pub admin: Pubkey,
    /// Whether `admin` signed the request.
    pub admin_is_signer: bool,
    /// The address at which the program says its data lies.
    pub programdata_address: Option<Pubkey>,
    /// The address of the program-data account that was handed in.
    pub program_data: Pubkey,
    /// The upgrade authority that the program-data account names.
    pub upgrade_authority_address: Option<Pubkey>,
    /// The mapping store; nothing where it has not been created.
    pub oracle_mappings: Option<OracleMappings>,
    /// The account that is to become the source of the slot.
    pub pyth_price_info: AccountInfo,
    /// Number of accounts handed in beyond these.
    pub remaining_accounts: usize,
}

/// Whether the request comes from the one authority of the instance: the
/// program-data account is the program's own, and the signer is the upgrade
/// authority that it names.
pub open spec fn is_authority(ctx: UpdateOracleMapping) -> bool {
    &&& ctx.admin_is_signer
    &&& ctx.programdata_address == Some(ctx.program_data)
    &&& ctx.upgrade_authority_address == Some(ctx.admin)
}

/// The verdict on an update of slot `token`; on `Ok` the source of the slot
/// becomes the address of the account handed in.
pub open spec fn update_verdict(ctx: UpdateOracleMapping, token: usize) -> Result<(), ScopeError> {
    if ctx.oracle_mappings is None {
        Err(ScopeError::ConfigurationMissing)
    } else if !is_authority(ctx) {
        Err(ScopeError::UnauthorizedMapping)
    } else if ctx.remaining_accounts != 0 {
        Err(ScopeError::UnexpectedAccount)
    } else if token >= MAX_ENTRIES {
        Err(ScopeError::OutOfRange)
    } else if ctx.oracle_mappings->0@[token as int] == ctx.pyth_price_info.key {
        Ok(())
    } else {
        source_validity(ctx.pyth_price_info.kind, ctx.pyth_price_info.data@)
    }
}

/// The mapping store after an update of slot `token` with the verdict
/// `update_verdict`: on `Ok` the slot holds the new reference, every other
/// slot is as before; on an error nothing has changed.
pub open spec fn mappings_after(ctx: UpdateOracleMapping, token: usize) -> Option<Seq<Pubkey>> {
    match ctx.oracle_mappings {
        None => None,
        Some(mappings) => if update_verdict(ctx, token) is Ok {
            Some(mappings@.update(token as int, ctx.pyth_price_info.key))
        } else {
            Some(mappings@)
        },
    }
}

/// Whether the request comes from the one authority of the instance.
fn check_authority(ctx: &UpdateOracleMapping) -> (ok: bool)
    ensures
        ok == is_authority(*ctx),
{
    if !ctx.admin_is_signer {
        return false;
    }
    let own_data = match &ctx.programdata_address {
        Some(address) => address.equals(&ctx.program_data),
        None => false,
    };
    if !own_data {
        return false;
    }
    match &ctx.upgrade_authority_address {
        Some(authority) => authority.equals(&ctx.admin),
        None => false,
    }
}

/// Makes the account handed in the source of slot `token`.
///
/// Only the authority may do this. Where the slot already holds the
/// reference nothing is done; otherwise the record behind the reference must
/// pass its adapter's check before it is installed.
pub fn process(ctx: &mut UpdateOracleMapping, token: usize) -> (res: Result<(), ScopeError>)
    ensures
        res == update_verdict(*old(ctx), token),
        match final(ctx).oracle_mappings {
            Some(mappings) => Some(mappings@),
            None => None,
        } == mappings_after(*old(ctx), token),
        final(ctx).admin == old(ctx).admin,
        final(ctx).admin_is_signer == old(ctx).admin_is_signer,
        final(ctx).programdata_address == old(ctx).programdata_address,
        final(ctx).program_data == old(ctx).program_data,
        final(ctx).upgrade_authority_address == old(ctx).upgrade_authority_address,
        final(ctx).pyth_price_info == old(ctx).pyth_price_info,
        final(ctx).remaining_accounts == old(ctx).remaining_accounts,
{
    let mut oracle_mappings = match ctx.oracle_mappings {
        Some(mappings) => mappings,
        None => { return Err(ScopeError::ConfigurationMissing); },
    };
    if !check_authority(ctx) {
        return Err(ScopeError::UnauthorizedMapping);
    }
    if ctx.remaining_accounts != 0 {
        return Err(ScopeError::UnexpectedAccount);
    }
    if token >= MAX_ENTRIES {
        return Err(ScopeError::OutOfRange);
    }
    let new_price_pubkey = ctx.pyth_price_info.key;
    let current_price_pubkey = oracle_mappings.price_info_accounts[token];
    if new_price_pubkey.equals(&current_price_pubkey) {
        assert(old(ctx).oracle_mappings->0@.update(token as int, new_price_pubkey)
            =~= old(ctx).oracle_mappings->0@);
        return Ok(());
    }
    match validate(ctx.pyth_price_info.kind, ctx.pyth_price_info.data.as_slice()) {
        Err(e) => { return Err(e); },
        Ok(_) => {},
    }
    oracle_mappings.price_info_accounts[token] = new_price_pubkey;
    ctx.oracle_mappings = Some(oracle_mappings);
    Ok(())
}

/// After an update of a slot that was accepted, the slot holds the new
/// reference, and every other slot holds what it held.
pub proof fn lemma_update_then_read(ctx: UpdateOracleMapping, token: usize)
    requires
        update_verdict(ctx, token) is Ok,
    ensures
        mappings_after(ctx, token) is Some,
        token < MAX_ENTRIES,
        mappings_after(ctx, token)->0[token as int] == ctx.pyth_price_info.key,
        forall|other: int|
            0 <= other < MAX_ENTRIES && other != token ==> mappings_after(ctx, token)->0[other]
                == ctx.oracle_mappings->0@[other],
{
}

/// An update that was accepted can be asked for again: the second request,
/// made of the mapping that the first one left, is accepted whatever its
/// record holds by then, and leaves the mapping as it is.
pub proof fn lemma_update_is_idempotent(
    first: UpdateOracleMapping,
    second: UpdateOracleMapping,
    token: usize,
)
    requires
        update_verdict(first, token) is Ok,
        second.oracle_mappings is Some,
        Some(second.oracle_mappings->0@) == mappings_after(first, token),
        second.pyth_price_info.key == first.pyth_price_info.key,
        is_authority(second),
        second.remaining_accounts == 0,
    ensures
        update_verdict(second, token) is Ok,
        mappings_after(second, token) == mappings_after(first, token),
{
    let mappings = second.oracle_mappings->0@;
    assert(mappings.update(token as int, second.pyth_price_info.key) =~= mappings);
}

} // verus!
