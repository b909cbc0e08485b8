//! The counter record.

use crate::codec::{read_u32, u32_from_bytes, u32_to_bytes, write_u32, DecodeError, U32_LEN};
use crate::pubkey::{pda_marker, seeded_address, Pubkey, PubkeyError};
use crate::states::State;
use vstd::prelude::*;
use vstd::utf8::encode_utf8;

verus! {

/// A user's counter.
#[derive(Clone, Copy, Debug, PartialEq, Eq, Structural)]
pub struct AccountState {
    /// The counter's value.
    pub counter: u32,
}

/// The bytes of `account_state`, the seed of every counter account.
pub open spec fn account_seed() -> Seq<u8> {
    seq![97u8, 99, 99, 111, 117, 110, 116, 95, 115, 116, 97, 116, 101]
}

/// The type name of the counter record, encoded, is `account_seed`.
pub proof fn lemma_account_seed()
    ensures
        encode_utf8("account_state"@) == account_seed(),
        account_seed().len() == 13,
{
    reveal_strlit("account_state");
    let name = "account_state"@;
    assert(vstd::utf8::is_ascii_chars(name));
    vstd::utf8::is_ascii_chars_encode_utf8(name);
    assert(encode_utf8(name) =~= account_seed());
}

impl Default for AccountState {
    fn default() -> (state: AccountState)
        ensures
            state.counter == 0,
    {
        AccountState { counter: 0 }
    }
}

impl AccountState {
    /// The bytes that hold the record in its account: the counter, least
    /// significant byte first.
    pub open spec fn spec_to_bytes(self) -> Seq<u8> {
        u32_to_bytes(self.counter)
    }

    /// The record that `bytes` hold, if they are an account's whole content.
    pub open spec fn spec_from_bytes(bytes: Seq<u8>) -> Result<AccountState, DecodeError> {
        if bytes.len() == U32_LEN {
            Ok(AccountState { counter: u32_from_bytes(bytes) })
        } else {
            Err(DecodeError::UnexpectedLength)
        }
    }

    /// Number of bytes that the record occupies in its account.
    pub fn size() -> (size: usize)
        ensures
            size == U32_LEN,
    {
        4
    }

    /// The type name, which serves as the seed of the account's address.
    pub fn state_type() -> (name: &'static str)
        ensures
            name@ == "account_state"@,
    {
        "account_state"
    }

    /// The address of the account that holds `user`'s counter under the
    /// program `program_id`. It exists unless the program's address ends in
    /// the marker of program-derived addresses.
    pub fn get_pda(program_id: &Pubkey, user: &Pubkey) -> (result: Result<Pubkey, PubkeyError>)
        ensures
            pda_marker().is_suffix_of(program_id@) ==> result == Err::<Pubkey, PubkeyError>(
                PubkeyError::IllegalOwner,
            ),
            !pda_marker().is_suffix_of(program_id@) ==> result is Ok && result->Ok_0@
                == seeded_address(user@, account_seed(), program_id@),
    {
        proof {
            lemma_account_seed();
        }
        Pubkey::create_with_seed(user, AccountState::state_type(), program_id)
    }

    /// Reads the record from the whole content of an account.
    pub fn try_from_slice(v: &[u8]) -> (result: Result<AccountState, DecodeError>)
        ensures
            result == AccountState::spec_from_bytes(v@),
    {
        match read_u32(v) {
            Ok(counter) => Ok(AccountState { counter }),
            Err(_) => Err(DecodeError::UnexpectedLength),
        }
    }

    /// Appends the bytes that hold the record to `writer`. This cannot fail.
    pub fn serialize(&self, writer: &mut Vec<u8>) -> (result: Result<(), std::io::Error>)
        ensures
            result is Ok,
            final(writer)@ == old(writer)@ + self.spec_to_bytes(),
    {
        write_u32(self.counter, writer)
    }
}

impl State for AccountState {
    open spec fn spec_size() -> usize {
        U32_LEN
    }

    open spec fn spec_state_type() -> Seq<char> {
        "account_state"@
    }

    fn size() -> (size: usize) {
        AccountState::size()
    }

    fn state_type() -> (name: &'static str) {
        AccountState::state_type()
    }
}

/// A stored record reads back as itself, and occupies `size` bytes.
pub proof fn lemma_account_state_roundtrip(state: AccountState)
    ensures
        state.spec_to_bytes().len() == U32_LEN,
        AccountState::spec_from_bytes(state.spec_to_bytes()) == Ok::<AccountState, DecodeError>(
            state,
        ),
{
    crate::codec::lemma_u32_roundtrip(state.counter);
}

/// Bytes that read as a record are the bytes that store it.
pub proof fn lemma_account_bytes_roundtrip(bytes: Seq<u8>)
    requires
        AccountState::spec_from_bytes(bytes) is Ok,
    ensures
        AccountState::spec_from_bytes(bytes)->Ok_0.spec_to_bytes() == bytes,
{
    crate::codec::lemma_bytes_roundtrip(bytes);
}

} // verus!
