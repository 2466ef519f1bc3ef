use vstd::prelude::*;
use vstd::slice::slice_to_vec;
use vstd::string::StringSliceAdditionalSpecFns;
use crate::pubkey::{base58_key, key_from_base58, program_address, seed_bytes, try_find_program_address, Pubkey};

verus! {

/// Seconds in one hour.
pub const SECONDS_PER_HOUR: u64 = 3600;

/// Whole hours from `previous_timestamp` to `current_timestamp`; none where
/// the first is not after the second.
pub open spec fn hours_between(current_timestamp: u64, previous_timestamp: u64) -> int {
    if current_timestamp <= previous_timestamp {
        0
    } else {
        (current_timestamp - previous_timestamp) / 3600
    }
}

/// Whole hours elapsed since a timestamp.
pub fn hours_since_timestamp(current_timestamp: u64, previous_timestamp: u64) -> (hours: u64)
    ensures
        hours == hours_between(current_timestamp, previous_timestamp),
{
    let seconds_elapsed: u64 = if current_timestamp <= previous_timestamp {
        0
    } else {
        current_timestamp - previous_timestamp
    };
    seconds_elapsed / SECONDS_PER_HOUR
}

/// The address, in base 58, of the loader that owns upgradeable programs.
pub open spec fn loader_text() -> Seq<char> {
    "BPFLoaderUpgradeab1e11111111111111111111111"@
}

/// The seed that the address of a configuration starts from: the text
/// "conf".
pub open spec fn conf_seed() -> Seq<u8> {
    seq![0x63u8, 0x6fu8, 0x6eu8, 0x66u8]
}

/// The address of the program-data account of the program `pid`: derived for
/// the loader of upgradeable programs from the program's address as the one
/// seed.
pub open spec fn data_address(pid: Seq<u8>) -> Option<Seq<u8>> {
    match base58_key(loader_text()) {
        None => None,
        Some(loader) => match program_address(seq![pid], loader) {
            None => None,
            Some((key, _)) => Some(key),
        },
    }
}

/// The address of the configuration of the price feed named by the bytes
/// `feed`: derived for the program from "conf" and the name.
pub open spec fn conf_address(pid: Seq<u8>, feed: Seq<u8>) -> Option<Seq<u8>> {
    match program_address(seq![conf_seed(), feed], pid) {
        None => None,
        Some((key, _)) => Some(key),
    }
}

/// The address of the program-data account of a program; nothing where none
/// can be derived.
pub fn find_data_address(pid: &Pubkey) -> (res: Option<Pubkey>)
    ensures
        match res {
            Some(key) => data_address(pid@) == Some(key@),
            None => data_address(pid@) is None,
        },
{
    let bpf_loader_addr = match key_from_base58("BPFLoaderUpgradeab1e11111111111111111111111") {
        Some(key) => key,
        None => { return None; },
    };
    let mut seed: Vec<u8> = Vec::new();
    let mut i: usize = 0;
    while i < 32
        invariant
            i <= 32,
            seed@.len() == i,
            forall|j: int| 0 <= j < i ==> seed@[j] == pid@[j],
        decreases 32 - i,
    {
        seed.push(pid.bytes[i]);
        i = i + 1;
    }
    assert(seed@ =~= pid@);
    let mut seeds: Vec<Vec<u8>> = Vec::new();
    seeds.push(seed);
    assert(seed_bytes(seeds@) =~= seq![pid@]);
    match try_find_program_address(&seeds, &bpf_loader_addr) {
        Some((program_data_address, _)) => Some(program_data_address),
        None => None,
    }
}

/// The address of the configuration of a price feed of the program `pid`;
/// nothing where none can be derived, as for a name of more than 32 bytes.
pub fn find_configuration_address(pid: &Pubkey, price_feed: &str) -> (res: Option<Pubkey>)
    ensures
        match res {
            Some(key) => conf_address(pid@, price_feed.spec_bytes()) == Some(key@),
            None => conf_address(pid@, price_feed.spec_bytes()) is None,
        },
        price_feed.spec_bytes().len() > 32 ==> res is None,
{
    let mut conf: Vec<u8> = Vec::new();
    conf.push(0x63);
    conf.push(0x6f);
    conf.push(0x6e);
    conf.push(0x66);
    assert(conf@ =~= conf_seed());
    let feed: Vec<u8> = slice_to_vec(price_feed.as_bytes());
    let mut seeds: Vec<Vec<u8>> = Vec::new();
    seeds.push(conf);
    seeds.push(feed);
    assert(seed_bytes(seeds@) =~= seq![conf_seed(), price_feed.spec_bytes()]);
    assert(price_feed.spec_bytes().len() > 32 ==> seed_bytes(seeds@)[1].len() > 32);
    match try_find_program_address(&seeds, pid) {
        Some((configuration_acc, _)) => Some(configuration_acc),
        None => None,
    }
}

} // verus!
