//! Account addresses and the derivation of an address from a seed.

use solana_program::pubkey::Pubkey as SolanaPubkey;
use solana_program::pubkey::PubkeyError as SolanaError;
use vstd::prelude::*;
use vstd::std_specs::cmp::PartialEqSpecImpl;
use vstd::string::StringSliceAdditionalSpecFns;

verus! {

/// Number of bytes in an address.
pub const PUBKEY_BYTES: usize = 32;

/// Longest seed, in bytes, from which an address may be derived.
pub const MAX_SEED_LEN: usize = 32;

/// The address of an account or of a program.
#[derive(Clone, Copy, Debug, Eq)]
pub struct Pubkey(pub [u8; 32]);

/// Why no address could be derived.
#[derive(Clone, Copy, Debug, PartialEq, Eq, Structural)]
pub enum PubkeyError {
    /// The seed is longer than `MAX_SEED_LEN` bytes.
    MaxSeedLengthExceeded,
    /// The seeds do not lead to a valid address.
    InvalidSeeds,
    /// The owner's address ends in the marker of program-derived addresses.
    IllegalOwner,
}

impl View for Pubkey {
    type V = Seq<u8>;

    open spec fn view(&self) -> Seq<u8> {
        self.0@
    }
}

impl PartialEq for Pubkey {
    fn eq(&self, other: &Pubkey) -> (equal: bool) {
        let mut i: usize = 0;
        while i < PUBKEY_BYTES
            invariant
                i <= PUBKEY_BYTES,
                forall|j: int| 0 <= j < i ==> self.0[j] == other.0[j],
            decreases PUBKEY_BYTES - i,
        {
            if self.0[i] != other.0[i] {
                return false;
            }
            i += 1;
        }
        assert(self.0 =~= other.0);
        true
    }
}

impl PartialEqSpecImpl for Pubkey {
    open spec fn obeys_eq_spec() -> bool {
        true
    }

    open spec fn eq_spec(&self, other: &Pubkey) -> bool {
        *self == *other
    }
}

/// The bytes `ProgramDerivedAddress`, which end the address of no owner that
/// a seeded address may be derived for.
pub open spec fn pda_marker() -> Seq<u8> {
    seq![
        80u8, 114, 111, 103, 114, 97, 109, 68, 101, 114, 105, 118, 101, 100, 65, 100, 100, 114,
        101, 115, 115,
    ]
}

/// The address that hashing `base`, `seed` and `owner` yields.
pub uninterp spec fn seeded_address(base: Seq<u8>, seed: Seq<u8>, owner: Seq<u8>) -> Seq<u8>;

/// What deriving an address for `owner` from a seed results in, where
/// `address` is what hashing yields: a seed that is too long is refused
/// first, then an owner that ends in the marker; every other input has the
/// address `address`.
pub open spec fn is_create_with_seed(
    result: Result<Pubkey, PubkeyError>,
    seed: Seq<u8>,
    owner: Pubkey,
    address: Seq<u8>,
) -> bool {
    if seed.len() > MAX_SEED_LEN {
        result == Err::<Pubkey, PubkeyError>(PubkeyError::MaxSeedLengthExceeded)
    } else if pda_marker().is_suffix_of(owner@) {
        result == Err::<Pubkey, PubkeyError>(PubkeyError::IllegalOwner)
    } else {
        result is Ok && result->Ok_0@ == address
    }
}

impl Pubkey {
    /// The address made of the given bytes.
    pub fn new_from_array(pubkey_array: [u8; 32]) -> (key: Pubkey)
        ensures
            key.0 == pubkey_array,
    {
        Pubkey(pubkey_array)
    }

    /// The bytes of the address.
    pub fn to_bytes(&self) -> (bytes: [u8; 32])
        ensures
            bytes == self.0,
    {
        self.0
    }

    /// Calls `solana_program::pubkey::Pubkey::create_with_seed`.
    ///
    /// Trusted: the outside function returns `MaxSeedLengthExceeded` for a
    /// seed of more than 32 bytes, else `IllegalOwner` for an owner whose last
    /// 21 bytes are the marker, else the SHA-256 hash of the three byte
    /// strings one after another, which depends on nothing else.
    #[verifier::external_body]
    pub(crate) fn create_with_seed(base: &Pubkey, seed: &str, owner: &Pubkey) -> (result: Result<
        Pubkey,
        PubkeyError,
    >)
        ensures
            is_create_with_seed(
                result,
                seed.spec_bytes(),
                *owner,
                seeded_address(base@, seed.spec_bytes(), owner@),
            ),
    {
        let base = SolanaPubkey::new_from_array(base.0);
        let owner = SolanaPubkey::new_from_array(owner.0);
        match SolanaPubkey::create_with_seed(&base, seed, &owner) {
            Ok(address) => Ok(Pubkey(address.to_bytes())),
            Err(SolanaError::MaxSeedLengthExceeded) => Err(PubkeyError::MaxSeedLengthExceeded),
            Err(SolanaError::InvalidSeeds) => Err(PubkeyError::InvalidSeeds),
            Err(SolanaError::IllegalOwner) => Err(PubkeyError::IllegalOwner),
        }
    }
}

/// Two addresses with the same bytes are the same address.
pub proof fn lemma_pubkey_ext(a: Pubkey, b: Pubkey)
    requires
        a@ == b@,
    ensures
        a == b,
{
    assert(a.0 =~= b.0);
}

/// Deriving an address has one result: two results that both fit the same
/// inputs are equal.
pub proof fn lemma_create_with_seed_unique(
    first: Result<Pubkey, PubkeyError>,
    second: Result<Pubkey, PubkeyError>,
    seed: Seq<u8>,
    owner: Pubkey,
    address: Seq<u8>,
)
    requires
        is_create_with_seed(first, seed, owner, address),
        is_create_with_seed(second, seed, owner, address),
    ensures
        first == second,
{
    if first is Ok && second is Ok {
        lemma_pubkey_ext(first->Ok_0, second->Ok_0);
    }
}

} // verus!
