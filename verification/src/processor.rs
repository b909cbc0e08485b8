//! The program: what an instruction does to the account it is given.

use crate::codec::{u32_to_bytes, DecodeError};
use crate::instruction::{spec_counter_transaction, CustomInstruction};
use crate::pubkey::Pubkey;
use crate::states::account_state::AccountState;
use vstd::prelude::*;

verus! {

/// Why the program refused an instruction.
#[derive(Clone, Copy, Debug, PartialEq, Eq, Structural)]
pub enum ProgramError {
    /// The instruction names no account.
    NotEnoughAccountKeys,
    /// The account belongs to another program.
    IncorrectProgramId,
    /// The account holds no counter, or the data is no instruction.
    BorshIoError,
}

/// What the program answers.
pub type ProgramResult = Result<(), ProgramError>;

/// An account as the program sees it.
#[derive(Clone, Debug, PartialEq, Eq)]
pub struct AccountInfo {
    /// The program that owns the account.
    pub owner: Pubkey,
    /// The account's content.
    pub data: Vec<u8>,
}

/// An `AccountInfo` as a mathematical value.
pub struct AccountInfoView {
    pub owner: Pubkey,
    pub data: Seq<u8>,
}

impl View for AccountInfo {
    type V = AccountInfoView;

    open spec fn view(&self) -> AccountInfoView {
        AccountInfoView { owner: self.owner, data: self.data@ }
    }
}

/// What the program `program_id` makes of `account` on the instruction that
/// `instruction_data` encode: the account as it is afterwards, or the reason
/// for which it stays as it is. The owner is checked first, then the
/// account's content is read, then the instruction.
pub open spec fn spec_process(
    program_id: Pubkey,
    account: AccountInfoView,
    instruction_data: Seq<u8>,
) -> Result<AccountInfoView, ProgramError> {
    if account.owner != program_id {
        Err(ProgramError::IncorrectProgramId)
    } else {
        match (
            AccountState::spec_from_bytes(account.data),
            CustomInstruction::spec_from_bytes(instruction_data),
        ) {
            (Ok(state), Ok(instruction)) => Ok(
                AccountInfoView {
                    owner: account.owner,
                    data: u32_to_bytes(instruction.spec_apply(state.counter) as u32),
                },
            ),
            _ => Err(ProgramError::BorshIoError),
        }
    }
}

/// Whether the instruction, where it reaches a counter, leaves it within the
/// range of a `u32`.
pub open spec fn spec_in_range(
    program_id: Pubkey,
    accounts: Seq<AccountInfo>,
    instruction_data: Seq<u8>,
) -> bool {
    accounts.len() > 0 && accounts[0].owner == program_id ==> match (
        AccountState::spec_from_bytes(accounts[0].data@),
        CustomInstruction::spec_from_bytes(instruction_data),
    ) {
        (Ok(state), Ok(instruction)) => instruction.spec_applies_to(state.counter),
        _ => true,
    }
}

/// How the accounts `after` an instruction relate to those `before` it, and
/// to the program's answer `result`: an instruction that is refused changes
/// nothing; one that is carried out changes the first account as
/// `spec_process` says, and no other.
pub open spec fn spec_processed(
    program_id: Pubkey,
    before: Seq<AccountInfo>,
    instruction_data: Seq<u8>,
    after: Seq<AccountInfo>,
    result: ProgramResult,
) -> bool {
    if before.len() == 0 {
        result == Err::<(), ProgramError>(ProgramError::NotEnoughAccountKeys) && after == before
    } else {
        match spec_process(program_id, before[0]@, instruction_data) {
            Err(error) => result == Err::<(), ProgramError>(error) && after == before,
            Ok(account) => {
                &&& result == Ok::<(), ProgramError>(())
                &&& after.len() == before.len()
                &&& after[0]@ == account
                &&& forall|i: int| 1 <= i < before.len() ==> after[i] == before[i]
            },
        }
    }
}

/// Carries out the instruction that `instruction_data` encode on the first
/// of `accounts`, which must belong to `program_id` and hold a counter.
pub fn process_instruction(
    program_id: &Pubkey,
    accounts: &mut Vec<AccountInfo>,
    instruction_data: &[u8],
) -> (result: ProgramResult)
    requires
        spec_in_range(*program_id, old(accounts)@, instruction_data@),
    ensures
        spec_processed(
            *program_id,
            old(accounts)@,
            instruction_data@,
            final(accounts)@,
            result,
        ),
{
    if accounts.len() == 0 {
        return Err(ProgramError::NotEnoughAccountKeys);
    }
    let owner = accounts[0].owner;
    if owner != *program_id {
        return Err(ProgramError::IncorrectProgramId);
    }
    let mut greeting = match AccountState::try_from_slice(accounts[0].data.as_slice()) {
        Ok(state) => state,
        Err(_) => {
            return Err(ProgramError::BorshIoError);
        },
    };
    let instruction = match CustomInstruction::try_from_slice(instruction_data) {
        Ok(instruction) => instruction,
        Err(_) => {
            return Err(ProgramError::BorshIoError);
        },
    };
    instruction.apply(&mut greeting);
    let mut data: Vec<u8> = Vec::new();
    let _ = greeting.serialize(&mut data);
    assert(data@ =~= greeting.spec_to_bytes());
    accounts.set(0, AccountInfo { owner, data });
    Ok(())
}

/// Carries out the instruction as `process_instruction` does, unless it
/// would take the counter out of the range of a `u32`: then nothing changes
/// and there is no answer.
pub fn try_process_instruction(
    program_id: &Pubkey,
    accounts: &mut Vec<AccountInfo>,
    instruction_data: &[u8],
) -> (answer: Option<ProgramResult>)
    ensures
        answer is Some <==> spec_in_range(*program_id, old(accounts)@, instruction_data@),
        answer is Some ==> spec_processed(
            *program_id,
            old(accounts)@,
            instruction_data@,
            final(accounts)@,
            answer->Some_0,
        ),
        answer is None ==> final(accounts)@ == old(accounts)@,
{
    if accounts.len() > 0 && accounts[0].owner == *program_id {
        let state = AccountState::try_from_slice(accounts[0].data.as_slice());
        let instruction = CustomInstruction::try_from_slice(instruction_data);
        match (state, instruction) {
            (Ok(state), Ok(instruction)) => {
                if !instruction.applies_to(state.counter) {
                    return None;
                }
            },
            _ => {},
        }
    }
    Some(process_instruction(program_id, accounts, instruction_data))
}

/// An account that the program has changed still holds a counter: the one
/// that the instruction leads to.
pub proof fn lemma_processed_holds_counter(
    program_id: Pubkey,
    account: AccountInfoView,
    instruction_data: Seq<u8>,
)
    requires
        spec_process(program_id, account, instruction_data) is Ok,
        CustomInstruction::spec_from_bytes(instruction_data)->Ok_0.spec_applies_to(
            AccountState::spec_from_bytes(account.data)->Ok_0.counter,
        ),
    ensures
        AccountState::spec_from_bytes(
            spec_process(program_id, account, instruction_data)->Ok_0.data,
        ) == Ok::<AccountState, DecodeError>(
            AccountState {
                counter: CustomInstruction::spec_from_bytes(instruction_data)->Ok_0.spec_apply(
                    AccountState::spec_from_bytes(account.data)->Ok_0.counter,
                ) as u32,
            },
        ),
{
    let state = AccountState::spec_from_bytes(account.data)->Ok_0;
    let instruction = CustomInstruction::spec_from_bytes(instruction_data)->Ok_0;
    crate::states::account_state::lemma_account_state_roundtrip(
        AccountState { counter: instruction.spec_apply(state.counter) as u32 },
    );
}

/// What a client submits is what the program carries out: the data of a
/// counter transaction, given to the program with the user's account,
/// applies the transaction's instruction to the stored counter.
pub proof fn lemma_submitted_instruction_is_applied(
    program_id: Pubkey,
    user: Pubkey,
    pda: Pubkey,
    payer: Pubkey,
    instruction: CustomInstruction,
    state: AccountState,
)
    requires
        instruction.spec_applies_to(state.counter),
    ensures
        spec_process(
            program_id,
            AccountInfoView { owner: program_id, data: state.spec_to_bytes() },
            spec_counter_transaction(program_id, user, pda, payer, instruction).instruction.data,
        ) == Ok::<AccountInfoView, ProgramError>(
            AccountInfoView {
                owner: program_id,
                data: (AccountState {
                    counter: instruction.spec_apply(state.counter) as u32,
                }).spec_to_bytes(),
            },
        ),
{
    crate::states::account_state::lemma_account_state_roundtrip(state);
    crate::instruction::lemma_instruction_roundtrip(instruction);
}

} // verus!
