//! Records that the program keeps in accounts of their own.

use crate::pubkey::{is_create_with_seed, seeded_address, Pubkey, PubkeyError};
use vstd::prelude::*;
use vstd::utf8::encode_utf8;

pub mod account_state;

verus! {

/// A record stored in an account whose address is derived from its user's
/// address, the record's type name and the program that owns it.
pub trait State {
    /// Number of bytes that the record occupies in its account.
    spec fn spec_size() -> usize;

    /// The type name, which serves as the seed of the account's address.
    spec fn spec_state_type() -> Seq<char>;

    /// Number of bytes that the record occupies in its account.
    fn size() -> (size: usize)
        ensures
            size == Self::spec_size(),
    ;

    /// The type name, which serves as the seed of the account's address.
    fn state_type() -> (name: &'static str)
        ensures
            name@ == Self::spec_state_type(),
    ;

    /// The address of the account that holds `user`'s record under the
    /// program `program_id`.
    fn get_pda(program_id: &Pubkey, user: &Pubkey) -> (result: Result<Pubkey, PubkeyError>)
        ensures
            is_create_with_seed(
                result,
                encode_utf8(Self::spec_state_type()),
                *program_id,
                seeded_address(user@, encode_utf8(Self::spec_state_type()), program_id@),
            ),
    {
        Pubkey::create_with_seed(user, Self::state_type(), program_id)
    }
}

} // verus!
