//! The instructions of the counter program, and what a client submits to
//! have one carried out.

use crate::codec::{read_u32, u32_from_bytes, u32_to_bytes, write_u32, DecodeError, U32_LEN};
use crate::pubkey::Pubkey;
use crate::states::account_state::AccountState;
use vstd::prelude::*;
use vstd::slice::{slice_subrange, slice_to_vec};

verus! {

/// Number of bytes of an encoded `CustomInstruction`: its tag and its amount.
pub const INSTRUCTION_LEN: usize = 5;

/// Amount by which `say_hello` raises the counter.
pub const HELLO_AMOUNT: u32 = 10;

/// Amount by which `sub` lowers the counter.
pub const SUB_AMOUNT: u32 = 4;

/// What the program is asked to do with a counter.
#[derive(Clone, Copy, Debug, PartialEq, Eq, Structural)]
pub enum CustomInstruction {
    /// Raise the counter by the amount.
    Add(u32),
    /// Lower the counter by the amount.
    Sub(u32),
}

impl CustomInstruction {
    /// The first byte of the instruction's encoding.
    pub open spec fn spec_tag(self) -> u8 {
        match self {
            CustomInstruction::Add(_) => 0,
            CustomInstruction::Sub(_) => 1,
        }
    }

    /// The amount that the instruction carries.
    pub open spec fn spec_amount(self) -> u32 {
        match self {
            CustomInstruction::Add(amount) => amount,
            CustomInstruction::Sub(amount) => amount,
        }
    }

    /// The encoding: the tag, then the amount, least significant byte first.
    pub open spec fn spec_to_bytes(self) -> Seq<u8> {
        seq![self.spec_tag()] + u32_to_bytes(self.spec_amount())
    }

    /// The instruction that `bytes` encode. The tag is read first, so that
    /// an unknown tag is reported whatever follows it.
    pub open spec fn spec_from_bytes(bytes: Seq<u8>) -> Result<CustomInstruction, DecodeError> {
        if bytes.len() == 0 {
            Err(DecodeError::UnexpectedLength)
        } else if bytes[0] > 1 {
            Err(DecodeError::UnexpectedVariant(bytes[0]))
        } else if bytes.len() != INSTRUCTION_LEN {
            Err(DecodeError::UnexpectedLength)
        } else if bytes[0] == 0 {
            Ok(CustomInstruction::Add(u32_from_bytes(bytes.subrange(1, 5))))
        } else {
            Ok(CustomInstruction::Sub(u32_from_bytes(bytes.subrange(1, 5))))
        }
    }

    /// The counter after the instruction, as a mathematical integer.
    pub open spec fn spec_apply(self, counter: u32) -> int {
        match self {
            CustomInstruction::Add(amount) => counter + amount,
            CustomInstruction::Sub(amount) => counter - amount,
        }
    }

    /// Whether the counter after the instruction is one that an account can
    /// hold.
    pub open spec fn spec_applies_to(self, counter: u32) -> bool {
        0 <= self.spec_apply(counter) <= u32::MAX
    }

    /// Appends the instruction's encoding to `writer`. This cannot fail.
    pub fn serialize(&self, writer: &mut Vec<u8>) -> (result: Result<(), std::io::Error>)
        ensures
            result is Ok,
            final(writer)@ == old(writer)@ + self.spec_to_bytes(),
    {
        let ghost before = writer@;
        let amount = match self {
            CustomInstruction::Add(amount) => {
                writer.push(0);
                *amount
            },
            CustomInstruction::Sub(amount) => {
                writer.push(1);
                *amount
            },
        };
        let result = write_u32(amount, writer);
        assert(writer@ =~= before + self.spec_to_bytes());
        result
    }

    /// Reads an instruction from the whole of an instruction's data.
    pub fn try_from_slice(v: &[u8]) -> (result: Result<CustomInstruction, DecodeError>)
        ensures
            result == CustomInstruction::spec_from_bytes(v@),
    {
        if v.len() == 0 {
            return Err(DecodeError::UnexpectedLength);
        }
        let tag = v[0];
        if tag > 1 {
            return Err(DecodeError::UnexpectedVariant(tag));
        }
        match read_u32(slice_subrange(v, 1, v.len())) {
            Ok(amount) => {
                assert(v@.subrange(1, v@.len() as int) == v@.subrange(1, 5));
                if tag == 0 {
                    Ok(CustomInstruction::Add(amount))
                } else {
                    Ok(CustomInstruction::Sub(amount))
                }
            },
            Err(_) => Err(DecodeError::UnexpectedLength),
        }
    }

    /// Whether the counter can take the instruction without leaving the range
    /// of an account's counter.
    pub fn applies_to(&self, counter: u32) -> (applies: bool)
        ensures
            applies == self.spec_applies_to(counter),
    {
        match self {
            CustomInstruction::Add(amount) => *amount <= u32::MAX - counter,
            CustomInstruction::Sub(amount) => *amount <= counter,
        }
    }

    /// Carries the instruction out on a counter.
    pub fn apply(&self, state: &mut AccountState)
        requires
            self.spec_applies_to(old(state).counter),
        ensures
            final(state).counter == self.spec_apply(old(state).counter),
    {
        match self {
            CustomInstruction::Add(amount) => {
                state.counter = state.counter + *amount;
            },
            CustomInstruction::Sub(amount) => {
                state.counter = state.counter - *amount;
            },
        }
    }
}

/// An encoded instruction reads back as itself, and occupies
/// `INSTRUCTION_LEN` bytes.
pub proof fn lemma_instruction_roundtrip(instruction: CustomInstruction)
    ensures
        instruction.spec_to_bytes().len() == INSTRUCTION_LEN,
        CustomInstruction::spec_from_bytes(instruction.spec_to_bytes()) == Ok::<
            CustomInstruction,
            DecodeError,
        >(instruction),
{
    let bytes = instruction.spec_to_bytes();
    crate::codec::lemma_u32_roundtrip(instruction.spec_amount());
    assert(bytes.subrange(1, 5) =~= u32_to_bytes(instruction.spec_amount()));
}

/// Bytes that read as an instruction are that instruction's encoding.
pub proof fn lemma_instruction_bytes_roundtrip(bytes: Seq<u8>)
    requires
        CustomInstruction::spec_from_bytes(bytes) is Ok,
    ensures
        CustomInstruction::spec_from_bytes(bytes)->Ok_0.spec_to_bytes() == bytes,
{
    crate::codec::lemma_bytes_roundtrip(bytes.subrange(1, 5));
    assert(CustomInstruction::spec_from_bytes(bytes)->Ok_0.spec_to_bytes() =~= bytes);
}

/// What undoes an instruction: the other kind, with the same amount.
pub open spec fn spec_inverse(instruction: CustomInstruction) -> CustomInstruction {
    match instruction {
        CustomInstruction::Add(amount) => CustomInstruction::Sub(amount),
        CustomInstruction::Sub(amount) => CustomInstruction::Add(amount),
    }
}

/// An instruction followed by its inverse leaves the counter as it was.
pub proof fn lemma_inverse_restores(instruction: CustomInstruction, counter: u32)
    requires
        instruction.spec_applies_to(counter),
    ensures
        spec_inverse(instruction).spec_applies_to(instruction.spec_apply(counter) as u32),
        spec_inverse(instruction).spec_apply(instruction.spec_apply(counter) as u32) == counter,
{
}

/// An account that an instruction names, and how the instruction uses it.
#[derive(Clone, Copy, Debug, PartialEq, Eq)]
pub struct AccountMeta {
    /// The account's address.
    pub pubkey: Pubkey,
    /// Whether the transaction must be signed with the account's key.
    pub is_signer: bool,
    /// Whether the program may change the account.
    pub is_writable: bool,
}

impl AccountMeta {
    /// An account that the program may change.
    pub fn new(pubkey: Pubkey, is_signer: bool) -> (meta: AccountMeta)
        ensures
            meta == (AccountMeta { pubkey, is_signer, is_writable: true }),
    {
        AccountMeta { pubkey, is_signer, is_writable: true }
    }

    /// An account that the program only reads.
    pub fn new_readonly(pubkey: Pubkey, is_signer: bool) -> (meta: AccountMeta)
        ensures
            meta == (AccountMeta { pubkey, is_signer, is_writable: false }),
    {
        AccountMeta { pubkey, is_signer, is_writable: false }
    }
}

/// A call of a program: the accounts it is given and the data it is to read.
#[derive(Clone, Debug, PartialEq, Eq)]
pub struct Instruction {
    /// The program that is called.
    pub program_id: Pubkey,
    /// The accounts handed to the program, in order.
    pub accounts: Vec<AccountMeta>,
    /// The bytes handed to the program.
    pub data: Vec<u8>,
}

/// An `Instruction` as a mathematical value.
pub struct InstructionView {
    pub program_id: Pubkey,
    pub accounts: Seq<AccountMeta>,
    pub data: Seq<u8>,
}

impl View for Instruction {
    type V = InstructionView;

    open spec fn view(&self) -> InstructionView {
        InstructionView { program_id: self.program_id, accounts: self.accounts@, data: self.data@ }
    }
}

impl Instruction {
    /// The call of `program_id` with a copy of `data` and with `accounts`.
    pub fn new_with_bytes(program_id: Pubkey, data: &[u8], accounts: Vec<AccountMeta>) -> (instruction:
        Instruction)
        ensures
            instruction@ == (InstructionView { program_id, accounts: accounts@, data: data@ }),
    {
        Instruction { program_id, accounts, data: slice_to_vec(data) }
    }
}

/// A transaction that awaits a recent block hash and its signatures.
#[derive(Clone, Debug, PartialEq, Eq)]
pub struct UnsignedTransaction {
    /// The one instruction of the transaction.
    pub instruction: Instruction,
    /// The account that pays the transaction's fee.
    pub payer: Pubkey,
    /// The accounts whose keys sign the transaction, in order.
    pub signers: Vec<Pubkey>,
}

/// An `UnsignedTransaction` as a mathematical value.
pub struct UnsignedTransactionView {
    pub instruction: InstructionView,
    pub payer: Pubkey,
    pub signers: Seq<Pubkey>,
}

impl View for UnsignedTransaction {
    type V = UnsignedTransactionView;

    open spec fn view(&self) -> UnsignedTransactionView {
        UnsignedTransactionView {
            instruction: self.instruction@,
            payer: self.payer,
            signers: self.signers@,
        }
    }
}

impl UnsignedTransactionView {
    /// Whether signing can succeed: the fee payer signs, and so does every
    /// account that the instruction marks as a signer.
    pub open spec fn fully_signed(self) -> bool {
        &&& self.signers.contains(self.payer)
        &&& forall|i: int|
            0 <= i < self.instruction.accounts.len() && (
            #[trigger] self.instruction.accounts[i]).is_signer ==> self.signers.contains(
                self.instruction.accounts[i].pubkey,
            )
    }
}

/// The transaction that has the program `program_id` carry `instruction` out
/// on the counter account `pda` of `user`: the counter account may change,
/// the user only signs, and `payer` signs and pays.
pub open spec fn spec_counter_transaction(
    program_id: Pubkey,
    user: Pubkey,
    pda: Pubkey,
    payer: Pubkey,
    instruction: CustomInstruction,
) -> UnsignedTransactionView {
    UnsignedTransactionView {
        instruction: InstructionView {
            program_id,
            accounts: seq![
                AccountMeta { pubkey: pda, is_signer: false, is_writable: true },
                AccountMeta { pubkey: user, is_signer: true, is_writable: false },
                AccountMeta { pubkey: payer, is_signer: true, is_writable: true },
            ],
            data: instruction.spec_to_bytes(),
        },
        payer,
        signers: seq![payer, user],
    }
}

/// Builds `spec_counter_transaction`.
pub fn counter_transaction(
    program_id: &Pubkey,
    user: &Pubkey,
    pda: &Pubkey,
    payer: &Pubkey,
    instruction: CustomInstruction,
) -> (transaction: UnsignedTransaction)
    ensures
        transaction@ == spec_counter_transaction(*program_id, *user, *pda, *payer, instruction),
        transaction@.fully_signed(),
{
    let mut writer: Vec<u8> = Vec::new();
    let _ = instruction.serialize(&mut writer);
    let mut accounts: Vec<AccountMeta> = Vec::new();
    accounts.push(AccountMeta::new(*pda, false));
    accounts.push(AccountMeta::new_readonly(*user, true));
    accounts.push(AccountMeta::new(*payer, true));
    let call = Instruction::new_with_bytes(*program_id, writer.as_slice(), accounts);
    let mut signers: Vec<Pubkey> = Vec::new();
    signers.push(*payer);
    signers.push(*user);
    let transaction = UnsignedTransaction { instruction: call, payer: *payer, signers };
    proof {
        let expected = spec_counter_transaction(*program_id, *user, *pda, *payer, instruction);
        lemma_counter_transaction_signed(*program_id, *user, *pda, *payer, instruction);
        assert(transaction@.instruction.accounts =~= expected.instruction.accounts);
        assert(transaction@.instruction.data =~= expected.instruction.data);
        assert(transaction@.signers =~= expected.signers);
    }
    transaction
}

/// Every transaction that `spec_counter_transaction` describes can be signed
/// by its signers.
pub proof fn lemma_counter_transaction_signed(
    program_id: Pubkey,
    user: Pubkey,
    pda: Pubkey,
    payer: Pubkey,
    instruction: CustomInstruction,
)
    ensures
        spec_counter_transaction(program_id, user, pda, payer, instruction).fully_signed(),
{
    let transaction = spec_counter_transaction(program_id, user, pda, payer, instruction);
    assert(transaction.signers[0] == payer);
    assert(transaction.signers[1] == user);
}

/// The transaction that raises `user`'s counter by `HELLO_AMOUNT`.
pub fn say_hello(program_id: &Pubkey, user: &Pubkey, pda: &Pubkey, payer: &Pubkey) -> (transaction:
    UnsignedTransaction)
    ensures
        transaction@ == spec_counter_transaction(
            *program_id,
            *user,
            *pda,
            *payer,
            CustomInstruction::Add(HELLO_AMOUNT),
        ),
        transaction@.fully_signed(),
{
    counter_transaction(program_id, user, pda, payer, CustomInstruction::Add(HELLO_AMOUNT))
}

/// The transaction that lowers `user`'s counter by `SUB_AMOUNT`.
pub fn sub(program_id: &Pubkey, user: &Pubkey, pda: &Pubkey, payer: &Pubkey) -> (transaction:
    UnsignedTransaction)
    ensures
        transaction@ == spec_counter_transaction(
            *program_id,
            *user,
            *pda,
            *payer,
            CustomInstruction::Sub(SUB_AMOUNT),
        ),
        transaction@.fully_signed(),
{
    counter_transaction(program_id, user, pda, payer, CustomInstruction::Sub(SUB_AMOUNT))
}

} // verus!
