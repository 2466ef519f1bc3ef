use vstd::prelude::*;

verus! {

/// The address of an account on the ledger.
///
/// The address made of zero bytes stands for "no account": a slot of the
/// mapping that holds it has no price source.
#[derive(Clone, Copy, Debug, PartialEq, Eq, Hash)]
pub struct Pubkey {
    pub bytes: [u8; 32],
}

/// The bytes of the address that stands for "no account".
pub open spec fn zero_key() -> Seq<u8> {
    Seq::new(32, |i: int| 0u8)
}

impl View for Pubkey {
    type V = Seq<u8>;

    open spec fn view(&self) -> Seq<u8> {
        self.bytes@
    }
}

impl Pubkey {
    /// An address from its bytes.
    pub fn new_from_array(bytes: [u8; 32]) -> (key: Pubkey)
        ensures
            key@ == bytes@,
            key.bytes == bytes,
    {
        Pubkey { bytes }
    }

    /// The bytes of the address.
    pub fn to_bytes(&self) -> (bytes: [u8; 32])
        ensures
            bytes@ == self@,
    {
        self.bytes
    }

    /// Whether two addresses hold the same bytes.
    pub fn equals(&self, other: &Pubkey) -> (same: bool)
        ensures
            same <==> self@ == other@,
            same <==> *self == *other,
    {
        let mut i: usize = 0;
        while i < 32
            invariant
                i <= 32,
                forall|j: int| 0 <= j < i ==> self.bytes@[j] == other.bytes@[j],
            decreases 32 - i,
        {
            if self.bytes[i] != other.bytes[i] {
                return false;
            }
            i = i + 1;
        }
        assert(self@ =~= other@);
        assert(self.bytes =~= other.bytes);
        true
    }

    /// Whether this is the address that stands for "no account".
    pub fn is_default(&self) -> (unset: bool)
        ensures
            unset <==> self@ == zero_key(),
            unset <==> *self == default_key(),
    {
        proof {
            lemma_default_key();
            lemma_key_of(*self);
        }
        let mut i: usize = 0;
        while i < 32
            invariant
                i <= 32,
                forall|j: int| 0 <= j < i ==> self.bytes@[j] == 0u8,
            decreases 32 - i,
        {
            if self.bytes[i] != 0 {
                proof {
                    lemma_default_key();
                    assert(zero_key()[i as int] == 0u8);
                }
                return false;
            }
            i = i + 1;
        }
        assert(self@ =~= zero_key());
        true
    }
}

/// The address whose bytes are `bytes`.
pub open spec fn key_of(bytes: Seq<u8>) -> Pubkey {
    choose|key: Pubkey| key@ == bytes
}

/// The address that stands for "no account".
pub open spec fn default_key() -> Pubkey {
    key_of(zero_key())
}

/// An address is the one that `key_of` gives for its bytes.
pub proof fn lemma_key_of(key: Pubkey)
    ensures
        key_of(key@) == key,
{
    let other = key_of(key@);
    assert(other@ == key@);
    assert(other.bytes =~= key.bytes);
}

/// The address that starts at `at`.
pub open spec fn key_at(b: Seq<u8>, at: int) -> Pubkey {
    key_of(b.subrange(at, at + 32))
}

/// Reads the address that starts at `at`.
pub fn read_key(b: &[u8], at: usize) -> (key: Pubkey)
    requires
        at + 32 <= b@.len(),
    ensures
        key@ == b@.subrange(at as int, at + 32),
        key == key_at(b@, at as int),
{
    let len: usize = b.len();
    let mut bytes = [0u8; 32];
    let mut i: usize = 0;
    while i < 32
        invariant
            i <= 32,
            at + 32 <= len,
            len == b@.len(),
            forall|j: int| 0 <= j < i ==> bytes@[j] == b@[at + j],
        decreases 32 - i,
    {
        bytes[i] = b[at + i];
        i = i + 1;
    }
    let key = Pubkey { bytes };
    proof {
        assert(key@ =~= b@.subrange(at as int, at + 32));
        lemma_key_of(key);
    }
    key
}

/// The address that stands for "no account" is made of 32 zero bytes.
pub proof fn lemma_default_key()
    ensures
        default_key()@ == zero_key(),
{
    broadcast use vstd::array::axiom_spec_array_fill_for_copy_type;

    let bytes = vstd::array::spec_array_fill_for_copy_type::<u8, 32>(0u8);
    let key = Pubkey { bytes };
    assert(key@ =~= zero_key());
}

impl Default for Pubkey {
    /// The address that stands for "no account".
    fn default() -> (key: Pubkey)
        ensures
            key@ == zero_key(),
            key == default_key(),
    {
        let key = Pubkey { bytes: [0u8; 32] };
        proof {
            assert(key@ =~= zero_key());
            lemma_key_of(key);
        }
        key
    }
}

/// Most seeds that an address can be derived from, the bump seed among them.
pub const MAX_SEEDS: usize = 16;

/// Most bytes in one seed.
pub const MAX_SEED_LEN: usize = 32;

/// The address derived for a program from seeds, with the bump seed that was
/// found for it; nothing where there is none.
pub uninterp spec fn program_address(seeds: Seq<Seq<u8>>, program_id: Seq<u8>) -> Option<
    (Seq<u8>, u8),
>;

/// The address that a text spells in base 58; nothing where it spells none.
pub uninterp spec fn base58_key(text: Seq<char>) -> Option<Seq<u8>>;

/// The bytes of each seed.
pub open spec fn seed_bytes(seeds: Seq<Vec<u8>>) -> Seq<Seq<u8>> {
    seeds.map_values(|seed: Vec<u8>| seed@)
}

/// Whether the seeds are more, or one of them longer, than an address can be
/// derived from. One place is kept for the bump seed.
pub open spec fn seeds_too_long(seeds: Seq<Seq<u8>>) -> bool {
    seeds.len() >= MAX_SEEDS || exists|i: int|
        0 <= i < seeds.len() && (#[trigger] seeds[i]).len() > MAX_SEED_LEN
}

/// Calls `Pubkey::try_find_program_address` of `solana_program`.
///
/// Not proved: that the call's result depends on the bytes of the seeds and
/// of the program's address alone, which gives it the name
/// `program_address`; and that the call finds no address where the seeds,
/// with the bump seed, are more than `MAX_SEEDS` or one of them is longer
/// than `MAX_SEED_LEN`.
#[verifier::external_body]
pub(crate) fn try_find_program_address(seeds: &Vec<Vec<u8>>, program_id: &Pubkey) -> (res: Option<
    (Pubkey, u8),
>)
    ensures
        match res {
            Some((key, bump)) => program_address(seed_bytes(seeds@), program_id@) == Some(
                (key@, bump),
            ),
            None => program_address(seed_bytes(seeds@), program_id@) is None,
        },
        seeds_too_long(seed_bytes(seeds@)) ==> res is None,
{
    let seeds: Vec<&[u8]> = seeds.iter().map(|seed| seed.as_slice()).collect();
    let program_id = solana_program::pubkey::Pubkey::new_from_array(program_id.bytes);
    match solana_program::pubkey::Pubkey::try_find_program_address(&seeds, &program_id) {
        Some((key, bump)) => Some((Pubkey { bytes: key.to_bytes() }, bump)),
        None => None,
    }
}

/// Calls `Pubkey::from_str` of `solana_program`, which reads an address
/// written in base 58.
///
/// Not proved: that the call's result depends on the text alone, which gives
/// it the name `base58_key`.
#[verifier::external_body]
pub(crate) fn key_from_base58(text: &str) -> (res: Option<Pubkey>)
    ensures
        match res {
            Some(key) => base58_key(text@) == Some(key@),
            None => base58_key(text@) is None,
        },
{
    match <solana_program::pubkey::Pubkey as std::str::FromStr>::from_str(text) {
        Ok(key) => Some(Pubkey { bytes: key.to_bytes() }),
        Err(_) => None,
    }
}

} // verus!
