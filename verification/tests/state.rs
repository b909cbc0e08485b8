use expiry_token::codec::DecodeError;
use expiry_token::pubkey::{Pubkey, PubkeyError};
use expiry_token::states::account_state::AccountState;
use expiry_token::states::State;

fn key(first: u8) -> Pubkey {
    let mut bytes = [0u8; 32];
    bytes[0] = first;
    bytes[31] = 7;
    Pubkey::new_from_array(bytes)
}

fn marked_key() -> Pubkey {
    let mut bytes = [9u8; 32];
    bytes[11..].copy_from_slice(b"ProgramDerivedAddress");
    Pubkey::new_from_array(bytes)
}

fn expected_address(user: &Pubkey, seed: &str, program_id: &Pubkey) -> [u8; 32] {
    solana_program::hash::hashv(&[&user.to_bytes(), seed.as_bytes(), &program_id.to_bytes()])
        .to_bytes()
}

#[test]
fn size_is_four_bytes() {
    assert_eq!(AccountState::size(), 4);
    assert_eq!(<AccountState as State>::size(), 4);
}

#[test]
fn state_type_is_the_seed() {
    assert_eq!(AccountState::state_type(), "account_state");
    assert_eq!(<AccountState as State>::state_type(), "account_state");
}

#[test]
fn default_counter_is_zero() {
    assert_eq!(AccountState::default(), AccountState { counter: 0 });
}

#[test]
fn reads_little_endian_counter() {
    assert_eq!(AccountState::try_from_slice(&[1, 0, 0, 0]), Ok(AccountState { counter: 1 }));
    assert_eq!(
        AccountState::try_from_slice(&[0x78, 0x56, 0x34, 0x12]),
        Ok(AccountState { counter: 0x1234_5678 })
    );
    assert_eq!(
        AccountState::try_from_slice(&[255, 255, 255, 255]),
        Ok(AccountState { counter: u32::MAX })
    );
}

#[test]
fn refuses_short_and_long_accounts() {
    assert_eq!(AccountState::try_from_slice(&[]), Err(DecodeError::UnexpectedLength));
    assert_eq!(AccountState::try_from_slice(&[1, 0, 0]), Err(DecodeError::UnexpectedLength));
    assert_eq!(AccountState::try_from_slice(&[1, 0, 0, 0, 0]), Err(DecodeError::UnexpectedLength));
}

#[test]
fn writes_little_endian_counter() {
    let mut writer = vec![];
    assert!(AccountState { counter: 0x1234_5678 }.serialize(&mut writer).is_ok());
    assert_eq!(writer, vec![0x78, 0x56, 0x34, 0x12]);
}

#[test]
fn serialize_appends_to_the_writer() {
    let mut writer = vec![9, 9];
    assert!(AccountState { counter: 258 }.serialize(&mut writer).is_ok());
    assert_eq!(writer, vec![9, 9, 2, 1, 0, 0]);
}

#[test]
fn stored_counter_reads_back() {
    for counter in [0u32, 1, 255, 256, 65_535, 65_536, 16_777_216, u32::MAX] {
        let mut writer = vec![];
        assert!(AccountState { counter }.serialize(&mut writer).is_ok());
        assert_eq!(writer.len(), AccountState::size());
        assert_eq!(AccountState::try_from_slice(&writer), Ok(AccountState { counter }));
    }
}

#[test]
fn pda_hashes_user_seed_and_program() {
    let program_id = key(1);
    let user = key(2);
    let pda = AccountState::get_pda(&program_id, &user).unwrap();
    assert_eq!(pda.to_bytes(), expected_address(&user, "account_state", &program_id));
    assert_ne!(pda, user);
    assert_ne!(pda, program_id);
}

#[test]
fn pda_is_deterministic_and_tells_users_apart() {
    let program_id = key(1);
    assert_eq!(
        AccountState::get_pda(&program_id, &key(2)),
        AccountState::get_pda(&program_id, &key(2))
    );
    assert_ne!(
        AccountState::get_pda(&program_id, &key(2)),
        AccountState::get_pda(&program_id, &key(3))
    );
    assert_ne!(
        AccountState::get_pda(&key(4), &key(2)),
        AccountState::get_pda(&program_id, &key(2))
    );
}

#[test]
fn pda_of_the_trait_is_that_of_the_type() {
    let program_id = key(1);
    let user = key(2);
    assert_eq!(
        <AccountState as State>::get_pda(&program_id, &user),
        AccountState::get_pda(&program_id, &user)
    );
}

#[test]
fn pda_refuses_a_marked_program() {
    let user = key(2);
    assert_eq!(AccountState::get_pda(&marked_key(), &user), Err(PubkeyError::IllegalOwner));
    assert_eq!(
        <AccountState as State>::get_pda(&marked_key(), &user),
        Err(PubkeyError::IllegalOwner)
    );
}

#[test]
fn pda_accepts_a_program_with_part_of_the_marker() {
    let mut bytes = [9u8; 32];
    bytes[12..].copy_from_slice(b"rogramDerivedAddress");
    let program_id = Pubkey::new_from_array(bytes);
    let user = key(2);
    assert_eq!(
        AccountState::get_pda(&program_id, &user).map(|pda| pda.to_bytes()),
        Ok(expected_address(&user, "account_state", &program_id))
    );
}

#[test]
fn pubkey_keeps_its_bytes() {
    let mut bytes = [0u8; 32];
    for (i, byte) in bytes.iter_mut().enumerate() {
        *byte = i as u8;
    }
    assert_eq!(Pubkey::new_from_array(bytes).to_bytes(), bytes);
    assert_eq!(Pubkey::new_from_array(bytes), Pubkey(bytes));
}

#[test]
fn pubkeys_differ_by_any_byte() {
    let base = Pubkey::new_from_array([5u8; 32]);
    for i in 0..32 {
        let mut bytes = [5u8; 32];
        bytes[i] = 6;
        assert_ne!(Pubkey::new_from_array(bytes), base);
    }
    assert_eq!(Pubkey::new_from_array([5u8; 32]), base);
}
