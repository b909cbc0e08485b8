use expiry_token::instruction::{say_hello, sub};
use expiry_token::process_instruction;
use expiry_token::processor::{try_process_instruction, AccountInfo, ProgramError};
use expiry_token::pubkey::Pubkey;

fn key(first: u8) -> Pubkey {
    Pubkey::new_from_array([first; 32])
}

fn account(owner: Pubkey, data: &[u8]) -> AccountInfo {
    AccountInfo { owner, data: data.to_vec() }
}

#[test]
fn add_raises_the_stored_counter() {
    let mut accounts = vec![account(key(1), &[0, 0, 0, 0])];
    assert_eq!(process_instruction(&key(1), &mut accounts, &[0, 10, 0, 0, 0]), Ok(()));
    assert_eq!(accounts, vec![account(key(1), &[10, 0, 0, 0])]);
}

#[test]
fn sub_lowers_the_stored_counter() {
    let mut accounts = vec![account(key(1), &[10, 0, 0, 0])];
    assert_eq!(process_instruction(&key(1), &mut accounts, &[1, 4, 0, 0, 0]), Ok(()));
    assert_eq!(accounts, vec![account(key(1), &[6, 0, 0, 0])]);
}

#[test]
fn carries_into_the_next_byte() {
    let mut accounts = vec![account(key(1), &[255, 0, 0, 0])];
    assert_eq!(process_instruction(&key(1), &mut accounts, &[0, 1, 0, 0, 0]), Ok(()));
    assert_eq!(accounts[0].data, vec![0, 1, 0, 0]);
    assert_eq!(process_instruction(&key(1), &mut accounts, &[1, 1, 0, 0, 0]), Ok(()));
    assert_eq!(accounts[0].data, vec![255, 0, 0, 0]);
}

#[test]
fn hello_then_sub_leaves_six() {
    let (program_id, user, pda, payer) = (key(1), key(2), key(3), key(4));
    let mut accounts = vec![account(program_id, &[0, 0, 0, 0]), account(key(9), &[1, 2, 3])];
    let hello = say_hello(&program_id, &user, &pda, &payer);
    assert_eq!(process_instruction(&hello.instruction.program_id, &mut accounts, &hello.instruction.data), Ok(()));
    assert_eq!(accounts[0].data, vec![10, 0, 0, 0]);
    let lower = sub(&program_id, &user, &pda, &payer);
    assert_eq!(process_instruction(&lower.instruction.program_id, &mut accounts, &lower.instruction.data), Ok(()));
    assert_eq!(accounts[0].data, vec![6, 0, 0, 0]);
    assert_eq!(accounts[1], account(key(9), &[1, 2, 3]));
}

#[test]
fn only_the_first_account_changes() {
    let mut accounts = vec![
        account(key(1), &[1, 0, 0, 0]),
        account(key(1), &[1, 0, 0, 0]),
        account(key(2), &[]),
    ];
    assert_eq!(process_instruction(&key(1), &mut accounts, &[0, 2, 0, 0, 0]), Ok(()));
    assert_eq!(
        accounts,
        vec![account(key(1), &[3, 0, 0, 0]), account(key(1), &[1, 0, 0, 0]), account(key(2), &[])]
    );
}

#[test]
fn no_account_is_not_enough() {
    let mut accounts = vec![];
    assert_eq!(
        process_instruction(&key(1), &mut accounts, &[0, 10, 0, 0, 0]),
        Err(ProgramError::NotEnoughAccountKeys)
    );
    assert!(accounts.is_empty());
}

#[test]
fn foreign_account_is_refused() {
    let mut accounts = vec![account(key(2), &[0, 0, 0, 0])];
    assert_eq!(
        process_instruction(&key(1), &mut accounts, &[0, 10, 0, 0, 0]),
        Err(ProgramError::IncorrectProgramId)
    );
    assert_eq!(accounts, vec![account(key(2), &[0, 0, 0, 0])]);
}

#[test]
fn owner_is_checked_before_the_content() {
    let mut accounts = vec![account(key(2), &[0, 0])];
    assert_eq!(
        process_instruction(&key(1), &mut accounts, &[7]),
        Err(ProgramError::IncorrectProgramId)
    );
}

#[test]
fn account_without_counter_is_refused() {
    for data in [&[][..], &[0, 0, 0][..], &[0, 0, 0, 0, 0][..]] {
        let mut accounts = vec![account(key(1), data)];
        assert_eq!(
            process_instruction(&key(1), &mut accounts, &[0, 10, 0, 0, 0]),
            Err(ProgramError::BorshIoError)
        );
        assert_eq!(accounts, vec![account(key(1), data)]);
    }
}

#[test]
fn malformed_instruction_is_refused() {
    for data in [&[][..], &[0][..], &[2, 1, 0, 0, 0][..], &[1, 4, 0, 0, 0, 0][..]] {
        let mut accounts = vec![account(key(1), &[5, 0, 0, 0])];
        assert_eq!(
            process_instruction(&key(1), &mut accounts, data),
            Err(ProgramError::BorshIoError)
        );
        assert_eq!(accounts, vec![account(key(1), &[5, 0, 0, 0])]);
    }
}

#[test]
fn try_process_answers_as_process_does() {
    let mut accounts = vec![account(key(1), &[0, 0, 0, 0])];
    assert_eq!(try_process_instruction(&key(1), &mut accounts, &[0, 10, 0, 0, 0]), Some(Ok(())));
    assert_eq!(accounts[0].data, vec![10, 0, 0, 0]);
    assert_eq!(
        try_process_instruction(&key(2), &mut accounts, &[0, 10, 0, 0, 0]),
        Some(Err(ProgramError::IncorrectProgramId))
    );
    assert_eq!(
        try_process_instruction(&key(1), &mut accounts, &[3]),
        Some(Err(ProgramError::BorshIoError))
    );
    let mut none = vec![];
    assert_eq!(
        try_process_instruction(&key(1), &mut none, &[0, 10, 0, 0, 0]),
        Some(Err(ProgramError::NotEnoughAccountKeys))
    );
}

#[test]
fn try_process_leaves_overflow_alone() {
    let mut accounts = vec![account(key(1), &[255, 255, 255, 255])];
    assert_eq!(try_process_instruction(&key(1), &mut accounts, &[0, 1, 0, 0, 0]), None);
    assert_eq!(accounts, vec![account(key(1), &[255, 255, 255, 255])]);
    assert_eq!(try_process_instruction(&key(1), &mut accounts, &[0, 0, 0, 0, 0]), Some(Ok(())));
    assert_eq!(accounts, vec![account(key(1), &[255, 255, 255, 255])]);
}

#[test]
fn try_process_leaves_underflow_alone() {
    let mut accounts = vec![account(key(1), &[3, 0, 0, 0])];
    assert_eq!(try_process_instruction(&key(1), &mut accounts, &[1, 4, 0, 0, 0]), None);
    assert_eq!(accounts, vec![account(key(1), &[3, 0, 0, 0])]);
    assert_eq!(try_process_instruction(&key(1), &mut accounts, &[1, 3, 0, 0, 0]), Some(Ok(())));
    assert_eq!(accounts, vec![account(key(1), &[0, 0, 0, 0])]);
}
