//! Instructions for the system program, which creates accounts and moves
//! lamports between them.

use crate::instruction::{AccountMeta, Instruction};
use crate::pubkey::Pubkey;
use solana_program::pubkey::Pubkey as SolanaPubkey;
use solana_program::system_instruction::create_account_with_seed as create_with_seed;
use solana_program::system_instruction::transfer as system_transfer;
use vstd::prelude::*;
use vstd::string::StringSliceAdditionalSpecFns;

verus! {

/// The address of the system program: thirty-two zero bytes.
pub open spec fn system_program_id() -> Seq<u8> {
    Seq::new(32, |i: int| 0u8)
}

/// The data of the system instruction that creates an account of `space`
/// bytes, funded with `lamports` and owned by `owner`, at the address derived
/// from `base` and the bytes `seed`.
pub uninterp spec fn create_with_seed_data(
    base: Seq<u8>,
    seed: Seq<u8>,
    lamports: u64,
    space: u64,
    owner: Seq<u8>,
) -> Seq<u8>;

/// The accounts of the system instruction that creates an account at
/// `to_pubkey`: `from_pubkey` funds it and signs, the new account changes,
/// and `base` signs.
pub open spec fn create_with_seed_accounts(
    from_pubkey: Pubkey,
    to_pubkey: Pubkey,
    base: Pubkey,
) -> Seq<AccountMeta> {
    seq![
        AccountMeta { pubkey: from_pubkey, is_signer: true, is_writable: true },
        AccountMeta { pubkey: to_pubkey, is_signer: false, is_writable: true },
        AccountMeta { pubkey: base, is_signer: true, is_writable: false },
    ]
}

/// Calls `solana_program::system_instruction::create_account_with_seed`.
///
/// Trusted: the outside function addresses the system program, lists the
/// funding account, the new account and the base in this order with the
/// flags of `create_with_seed_accounts`, and encodes the remaining arguments
/// as the instruction's data, which depends on nothing else.
#[verifier::external_body]
pub(crate) fn create_account_with_seed(
    from_pubkey: &Pubkey,
    to_pubkey: &Pubkey,
    base: &Pubkey,
    seed: &str,
    lamports: u64,
    space: u64,
    owner: &Pubkey,
) -> (instruction: Instruction)
    ensures
        instruction@.program_id@ == system_program_id(),
        instruction@.accounts == create_with_seed_accounts(*from_pubkey, *to_pubkey, *base),
        instruction@.data == create_with_seed_data(
            base@,
            seed.spec_bytes(),
            lamports,
            space,
            owner@,
        ),
{
    let from = SolanaPubkey::new_from_array(from_pubkey.0);
    let to = SolanaPubkey::new_from_array(to_pubkey.0);
    let base = SolanaPubkey::new_from_array(base.0);
    let owner = SolanaPubkey::new_from_array(owner.0);
    let built = create_with_seed(&from, &to, &base, seed, lamports, space, &owner);
    let accounts = built.accounts.iter().map(
        |meta| AccountMeta { pubkey: Pubkey(meta.pubkey.to_bytes()), is_signer: meta.is_signer, is_writable: meta.is_writable },
    ).collect();
    Instruction { program_id: Pubkey(built.program_id.to_bytes()), accounts, data: built.data }
}

/// The data of the system instruction that moves `lamports` from one
/// account to another.
pub uninterp spec fn transfer_data(lamports: u64) -> Seq<u8>;

/// The accounts of the system instruction that moves lamports: `from_pubkey`
/// gives them and signs, `to_pubkey` receives them.
pub open spec fn transfer_accounts(from_pubkey: Pubkey, to_pubkey: Pubkey) -> Seq<AccountMeta> {
    seq![
        AccountMeta { pubkey: from_pubkey, is_signer: true, is_writable: true },
        AccountMeta { pubkey: to_pubkey, is_signer: false, is_writable: true },
    ]
}

/// Calls `solana_program::system_instruction::transfer`.
///
/// Trusted: the outside function addresses the system program, lists the
/// giving and the receiving account in this order with the flags of
/// `transfer_accounts`, and encodes the amount as the instruction's data,
/// which depends on nothing else.
#[verifier::external_body]
pub(crate) fn transfer(from_pubkey: &Pubkey, to_pubkey: &Pubkey, lamports: u64) -> (instruction:
    Instruction)
    ensures
        instruction@.program_id@ == system_program_id(),
        instruction@.accounts == transfer_accounts(*from_pubkey, *to_pubkey),
        instruction@.data == transfer_data(lamports),
{
    let from = SolanaPubkey::new_from_array(from_pubkey.0);
    let to = SolanaPubkey::new_from_array(to_pubkey.0);
    let built = system_transfer(&from, &to, lamports);
    let accounts = built.accounts.iter().map(
        |meta| AccountMeta { pubkey: Pubkey(meta.pubkey.to_bytes()), is_signer: meta.is_signer, is_writable: meta.is_writable },
    ).collect();
    Instruction { program_id: Pubkey(built.program_id.to_bytes()), accounts, data: built.data }
}

} // verus!
