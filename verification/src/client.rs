//! The client's side: creating a user's account where there is none, and the
//! order in which a client asks the cluster for what that takes.
//!
//! Nothing here talks to a cluster. A caller carries out each `Request`,
//! reports what came of it as a `Response`, and is told the next `Step`.

use crate::instruction::{UnsignedTransaction, UnsignedTransactionView};
use crate::pubkey::{pda_marker, seeded_address, Pubkey, PubkeyError};
use crate::states::account_state::{account_seed, AccountState};
use crate::states::State;
use crate::system_instruction::{
    create_account_with_seed, create_with_seed_accounts, create_with_seed_data, system_program_id,
    transfer, transfer_accounts, transfer_data,
};
use vstd::prelude::*;
use vstd::string::StringSliceAdditionalSpecFns;
use vstd::utf8::encode_utf8;

verus! {

/// Lamports that a newly made user is given to begin with.
pub const FUNDING_LAMPORTS: u64 = 1_000_000_000;

/// Whether `transaction` has the system program move `FUNDING_LAMPORTS` from
/// `payer` to `user`, signed and paid for by `payer` alone.
pub open spec fn spec_is_funding(
    transaction: UnsignedTransactionView,
    payer: Pubkey,
    user: Pubkey,
) -> bool {
    &&& transaction.instruction.program_id@ == system_program_id()
    &&& transaction.instruction.accounts == transfer_accounts(payer, user)
    &&& transaction.instruction.data == transfer_data(FUNDING_LAMPORTS)
    &&& transaction.payer == payer
    &&& transaction.signers == seq![payer]
}

/// The transaction by which `payer` funds a newly made `user`.
pub fn fund_user(payer: &Pubkey, user: &Pubkey) -> (transaction: UnsignedTransaction)
    ensures
        spec_is_funding(transaction@, *payer, *user),
        transaction@.fully_signed(),
{
    let instruction = transfer(payer, user, FUNDING_LAMPORTS);
    let mut signers: Vec<Pubkey> = Vec::new();
    signers.push(*payer);
    let transaction = UnsignedTransaction { instruction, payer: *payer, signers };
    proof {
        assert(transaction@.signers =~= seq![*payer]);
        assert(transaction@.signers[0] == *payer);
    }
    transaction
}

/// Whether `transaction` has the system program create the account `pda` of
/// `size` bytes for the program `program_id`, at the address that `user` and
/// the bytes `seed` lead to: `payer` funds it with `rent_fee`, signs and pays
/// the fee, and `user` signs as the address's base.
pub open spec fn spec_is_create_account(
    transaction: UnsignedTransactionView,
    size: usize,
    program_id: Pubkey,
    user: Pubkey,
    payer: Pubkey,
    pda: Pubkey,
    seed: Seq<u8>,
    rent_fee: u64,
) -> bool {
    &&& transaction.instruction.program_id@ == system_program_id()
    &&& transaction.instruction.accounts == create_with_seed_accounts(payer, pda, user)
    &&& transaction.instruction.data == create_with_seed_data(
        user@,
        seed,
        rent_fee,
        size as u64,
        program_id@,
    )
    &&& transaction.payer == payer
    &&& transaction.signers == seq![payer, user]
}

/// A transaction that creates an account can be signed by its signers.
pub proof fn lemma_create_account_signed(
    transaction: UnsignedTransactionView,
    size: usize,
    program_id: Pubkey,
    user: Pubkey,
    payer: Pubkey,
    pda: Pubkey,
    seed: Seq<u8>,
    rent_fee: u64,
)
    requires
        spec_is_create_account(transaction, size, program_id, user, payer, pda, seed, rent_fee),
    ensures
        transaction.fully_signed(),
{
    assert(transaction.signers[0] == payer);
    assert(transaction.signers[1] == user);
}

/// The transaction that creates the account `pda` for a record of type `T`,
/// funded with `rent_fee`, the balance below which an account of the
/// record's size pays rent.
pub fn create_account<T: State>(
    program_id: &Pubkey,
    user: &Pubkey,
    payer: &Pubkey,
    pda: &Pubkey,
    data_type: &str,
    rent_fee: u64,
) -> (transaction: UnsignedTransaction)
    ensures
        spec_is_create_account(
            transaction@,
            T::spec_size(),
            *program_id,
            *user,
            *payer,
            *pda,
            data_type.spec_bytes(),
            rent_fee,
        ),
        transaction@.fully_signed(),
{
    let size: usize = T::size();
    let instruction = create_account_with_seed(
        payer,
        pda,
        user,
        data_type,
        rent_fee,
        size as u64,
        program_id,
    );
    let mut signers: Vec<Pubkey> = Vec::new();
    signers.push(*payer);
    signers.push(*user);
    let transaction = UnsignedTransaction { instruction, payer: *payer, signers };
    proof {
        assert(transaction@.signers =~= seq![*payer, *user]);
        lemma_create_account_signed(
            transaction@,
            T::spec_size(),
            *program_id,
            *user,
            *payer,
            *pda,
            data_type.spec_bytes(),
            rent_fee,
        );
    }
    transaction
}

/// What a client asks of the cluster.
#[derive(Clone, Debug, PartialEq, Eq)]
pub enum Request {
    /// Fetch the account at the address.
    GetAccount(Pubkey),
    /// Ask for the balance below which an account of so many bytes pays rent.
    GetMinimumBalanceForRentExemption(usize),
    /// Sign the transaction with a recent block hash, send it, and wait
    /// until it is confirmed.
    SendAndConfirm(UnsignedTransaction),
}

/// What came of a request.
#[derive(Clone, Debug, PartialEq, Eq)]
pub enum Response {
    /// The account exists and has this content.
    Account(Vec<u8>),
    /// The balance asked for.
    MinimumBalance(u64),
    /// The transaction is confirmed.
    Confirmed,
    /// The request failed.
    Failed,
}

/// How far `get_or_create_account` has come.
#[derive(Clone, Copy, Debug, PartialEq, Eq, Structural)]
pub enum Phase {
    /// The account is being fetched for the first time.
    Lookup,
    /// There is no account; the balance it needs is being asked for.
    Rent,
    /// The transaction that creates the account is under way.
    Create,
    /// The account is being fetched again, now that it was created.
    Reload,
}

impl Phase {
    /// Number of requests that may still follow the one under way.
    pub open spec fn spec_remaining(self) -> nat {
        match self {
            Phase::Lookup => 3,
            Phase::Rent => 2,
            Phase::Create => 1,
            Phase::Reload => 0,
        }
    }
}

/// A run of `get_or_create_account` between two requests.
#[derive(Clone, Copy, Debug, PartialEq, Eq)]
pub struct Session {
    /// The program that owns the account.
    pub program_id: Pubkey,
    /// The user whose record the account holds.
    pub user: Pubkey,
    /// Who pays for the account, should it have to be created.
    pub payer: Pubkey,
    /// The account's address.
    pub pda: Pubkey,
    /// The request under way.
    pub phase: Phase,
}

/// What a client does next.
#[derive(Clone, Debug, PartialEq, Eq)]
pub enum Step {
    /// Carry out the request and report to the session.
    Ask(Session, Request),
    /// The account exists; this is its content.
    Found(Vec<u8>),
    /// Give up, for the reason for which the last request failed.
    Failed,
}

/// Whether `start` is how a run for `user`'s record under `program_id`
/// begins: by fetching the account at the address of `user`'s counter, unless
/// there is no such address.
pub open spec fn spec_start(
    program_id: Pubkey,
    user: Pubkey,
    payer: Pubkey,
    start: Result<(Session, Request), PubkeyError>,
) -> bool {
    if pda_marker().is_suffix_of(program_id@) {
        start == Err::<(Session, Request), PubkeyError>(PubkeyError::IllegalOwner)
    } else {
        &&& start matches Ok((session, Request::GetAccount(address)))
        &&& address == session.pda
        &&& session.pda@ == seeded_address(user@, account_seed(), program_id@)
        &&& session.program_id == program_id
        &&& session.user == user
        &&& session.payer == payer
        &&& session.phase == Phase::Lookup
    }
}

/// Whether `step` is what follows when `session`, for a record of `size`
/// bytes whose type name has the bytes `seed`, is told `response`.
///
/// An account that is found ends the run. An account that cannot be fetched
/// at first is created: the balance is asked for, then the transaction sent,
/// then the account fetched again. Any other failure ends the run, and so
/// does an answer to another question than the one asked.
pub open spec fn spec_step(
    session: Session,
    size: usize,
    seed: Seq<u8>,
    response: Response,
    step: Step,
) -> bool {
    match (session.phase, response) {
        (Phase::Lookup, Response::Account(data)) => step matches Step::Found(found) && found@
            == data@,
        (Phase::Lookup, _) => {
            &&& step matches Step::Ask(next, Request::GetMinimumBalanceForRentExemption(asked))
            &&& asked == size
            &&& next == Session { phase: Phase::Rent, ..session }
        },
        (Phase::Rent, Response::MinimumBalance(rent_fee)) => {
            &&& step matches Step::Ask(next, Request::SendAndConfirm(transaction))
            &&& spec_is_create_account(
                transaction@,
                size,
                session.program_id,
                session.user,
                session.payer,
                session.pda,
                seed,
                rent_fee,
            )
            &&& next == Session { phase: Phase::Create, ..session }
        },
        (Phase::Create, Response::Confirmed) => {
            &&& step matches Step::Ask(next, Request::GetAccount(address))
            &&& address == session.pda
            &&& next == Session { phase: Phase::Reload, ..session }
        },
        (Phase::Reload, Response::Account(data)) => step matches Step::Found(found) && found@
            == data@,
        _ => step is Failed,
    }
}

/// Begins the run that ends with the content of `user`'s account, creating
/// the account for a record of type `T` if it cannot be fetched.
pub fn get_or_create_account<T: State>(program_id: &Pubkey, user: &Pubkey, payer: &Pubkey) -> (start:
    Result<(Session, Request), PubkeyError>)
    ensures
        spec_start(*program_id, *user, *payer, start),
{
    match AccountState::get_pda(program_id, user) {
        Ok(pda) => Ok(
            (
                Session {
                    program_id: *program_id,
                    user: *user,
                    payer: *payer,
                    pda,
                    phase: Phase::Lookup,
                },
                Request::GetAccount(pda),
            ),
        ),
        Err(error) => Err(error),
    }
}

impl Session {
    /// Takes the answer to the request under way and says what to do next,
    /// for a record of type `T`.
    pub fn advance<T: State>(self, response: Response) -> (step: Step)
        ensures
            spec_step(self, T::spec_size(), encode_utf8(T::spec_state_type()), response, step),
    {
        match self.phase {
            Phase::Lookup => match response {
                Response::Account(data) => Step::Found(data),
                _ => Step::Ask(
                    Session { phase: Phase::Rent, ..self },
                    Request::GetMinimumBalanceForRentExemption(T::size()),
                ),
            },
            Phase::Rent => match response {
                Response::MinimumBalance(rent_fee) => {
                    let transaction = create_account::<T>(
                        &self.program_id,
                        &self.user,
                        &self.payer,
                        &self.pda,
                        T::state_type(),
                        rent_fee,
                    );
                    Step::Ask(
                        Session { phase: Phase::Create, ..self },
                        Request::SendAndConfirm(transaction),
                    )
                },
                _ => Step::Failed,
            },
            Phase::Create => match response {
                Response::Confirmed => Step::Ask(
                    Session { phase: Phase::Reload, ..self },
                    Request::GetAccount(self.pda),
                ),
                _ => Step::Failed,
            },
            Phase::Reload => match response {
                Response::Account(data) => Step::Found(data),
                _ => Step::Failed,
            },
        }
    }
}

impl AccountState {
    /// Begins the run that ends with the content of `user`'s counter account,
    /// creating the account if it cannot be fetched.
    pub fn get_or_create_account(program_id: &Pubkey, user: &Pubkey, payer: &Pubkey) -> (start:
        Result<(Session, Request), PubkeyError>)
        ensures
            spec_start(*program_id, *user, *payer, start),
    {
        get_or_create_account::<AccountState>(program_id, user, payer)
    }

    /// The transaction that creates the counter account `pda`, funded with
    /// `rent_fee`.
    pub fn create_account(
        program_id: &Pubkey,
        user: &Pubkey,
        payer: &Pubkey,
        pda: &Pubkey,
        data_type: &str,
        rent_fee: u64,
    ) -> (transaction: UnsignedTransaction)
        ensures
            spec_is_create_account(
                transaction@,
                crate::codec::U32_LEN,
                *program_id,
                *user,
                *payer,
                *pda,
                data_type.spec_bytes(),
                rent_fee,
            ),
            transaction@.fully_signed(),
    {
        create_account::<AccountState>(program_id, user, payer, pda, data_type, rent_fee)
    }
}

/// Every request that a session makes brings it nearer its end: a run asks
/// at most four questions.
pub proof fn lemma_step_progress(
    session: Session,
    size: usize,
    seed: Seq<u8>,
    response: Response,
    step: Step,
)
    requires
        spec_step(session, size, seed, response, step),
    ensures
        step matches Step::Ask(next, _) ==> next.phase.spec_remaining()
            < session.phase.spec_remaining(),
{
}

/// A session asks for a transaction only to create its own account, and
/// only once it knows the balance that the account needs.
pub proof fn lemma_only_creates_own_account(
    session: Session,
    size: usize,
    seed: Seq<u8>,
    response: Response,
    step: Step,
)
    requires
        spec_step(session, size, seed, response, step),
        step matches Step::Ask(_, Request::SendAndConfirm(_)),
    ensures
        session.phase == Phase::Rent,
        response is MinimumBalance,
        step matches Step::Ask(_, Request::SendAndConfirm(transaction))
            && transaction@.instruction.accounts[1].pubkey == session.pda
            && transaction@.fully_signed(),
{
    if let Step::Ask(_, Request::SendAndConfirm(transaction)) = step {
        if let Response::MinimumBalance(rent_fee) = response {
            lemma_create_account_signed(
                transaction@,
                size,
                session.program_id,
                session.user,
                session.payer,
                session.pda,
                seed,
                rent_fee,
            );
        }
    }
}

} // verus!
