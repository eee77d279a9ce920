//! The entry point and the run of the three calls.

use crate::error::MintError;
use crate::host::{account_key, current_rent, exempt_balance, is_token_program};
use crate::payload::{decode_args, ArgsView, CreateTokenArgs};
use crate::rent::{mint_balance, rate_in_range};
use crate::request::{prepare, request_for, Call, MINT_SPACE};
use crate::roles::{AccountRoles, ROLE_COUNT};
use crate::stage::{call_order, Stage};
use solana_program::account_info::AccountInfo;
use solana_program::instruction::Instruction;
use solana_program::program::invoke;
use solana_program::program_error::ProgramError;
use solana_program::pubkey::Pubkey;
use solana_program::rent::Rent;
use vstd::prelude::*;

verus! {

/// A call that was handed to the host, with the host's answer.
#[derive(Debug)]
pub struct Sent<'b> {
    pub call: Call<'b>,
    /// Whether the host reported success.
    pub accepted: bool,
}

/// What a run of the calls came to.
#[derive(Debug)]
pub struct Run<'b> {
    /// The calls that were handed to the host, in the order in which they
    /// were.
    pub sent: Vec<Sent<'b>>,
    /// Whether all three succeeded, or how the run ended before that.
    pub result: Result<(), MintError>,
}

impl<'b> Run<'b> {
    /// Whether the calls sent are the first ones of the order, each as it is
    /// to be made for the given accounts, strings and balance, and each but
    /// the last one accepted: nothing is sent after a refusal.
    pub open spec fn sent_as_planned(
        self,
        roles: AccountRoles<'_, 'b>,
        args: ArgsView,
        lamports: u64,
    ) -> bool {
        &&& self.sent@.len() <= 3
        &&& forall|i: int|
            0 <= i < self.sent@.len() ==> (#[trigger] self.sent@[i]).call.is_planned(
                call_order()[i],
                roles,
                args,
                lamports,
            )
        &&& forall|i: int| 0 <= i < self.sent@.len() - 1 ==> (#[trigger] self.sent@[i]).accepted
    }

    /// Whether the result is the one that the calls sent and their answers
    /// lead to:
    /// - where the last call sent was refused, the failure of that call;
    /// - where all three were sent and accepted, success;
    /// - else the failure of the call that was to come next, with the error
    ///   of its builder, which did not build it. That is the token program's
    ///   builder, and the account in the token program's role is another.
    pub open spec fn ended_as_sent(
        self,
        roles: AccountRoles<'_, 'b>,
        args: ArgsView,
        lamports: u64,
    ) -> bool {
        let n = self.sent@.len() as int;
        if n >= 1 && !self.sent@[n - 1].accepted {
            self.result matches Err(MintError::ExternalCall { step, .. }) && step == call_order()[n
                - 1]
        } else if n >= 3 {
            self.result is Ok
        } else {
            &&& self.result matches Err(MintError::ExternalCall { step, cause }) && step
                == call_order()[n] && request_for(step, roles, args, lamports) == Err::<
                Instruction,
                ProgramError,
            >(cause)
            &&& n == 1
            &&& !is_token_program(account_key(*roles.token_program))
        }
    }

    /// Whether this is a run of the three calls for the given accounts,
    /// strings and balance.
    pub open spec fn is_run_with(
        self,
        roles: AccountRoles<'_, 'b>,
        args: ArgsView,
        lamports: u64,
    ) -> bool {
        self.sent_as_planned(roles, args, lamports) && self.ended_as_sent(roles, args, lamports)
    }
}

/// Runs the three calls: the system program creates the mint account with the
/// balance `lamports`, the token program initializes it, the metadata program
/// creates the record. Each call is made only after the host has accepted the
/// one before it, so the calls sent are the first ones of the order; the first
/// failure ends the run and is returned under the name of its call.
pub fn issue_calls<'b>(
    roles: &AccountRoles<'_, 'b>,
    args: &CreateTokenArgs,
    lamports: u64,
) -> (run: Run<'b>)
    requires
        args@.fits_wire(),
    ensures
        run.is_run_with(*roles, args@, lamports),
{
    let mut stage = Stage::Decoding;
    let mut sent: Vec<Sent<'b>> = Vec::new();
    loop
        invariant
            args@.fits_wire(),
            stage != Stage::Idle && stage != Stage::Failed,
            sent@.len() == stage.calls_behind().len(),
            forall|i: int|
                0 <= i < sent@.len() ==> (#[trigger] sent@[i]).call.is_planned(
                    call_order()[i],
                    *roles,
                    args@,
                    lamports,
                ) && sent@[i].accepted,
        decreases 3 - sent@.len(),
    {
        let step = match stage.next_call() {
            Some(step) => step,
            None => {
                return Run { sent, result: Ok(()) };
            },
        };
        let reply = match prepare(step, roles, args, lamports) {
            Ok(call) => {
                let reply = invoke(&call.request, call.accounts.as_slice());
                sent.push(Sent { call, accepted: reply.is_ok() });
                reply
            },
            Err(cause) => Err(cause),
        };
        stage = match stage.settle(reply) {
            Ok(next) => next,
            Err(e) => {
                return Run { sent, result: Err(e) };
            },
        };
    }
}

/// Goes on from the host's answer to the question for its rent schedule.
/// Without a schedule, or with one whose rate is too large for the balance of
/// the mint account to be computed, nothing is sent; else the three calls are
/// run with the balance that exempts the mint account from rent.
pub fn run_with_rent<'b>(
    roles: &AccountRoles<'_, 'b>,
    args: &CreateTokenArgs,
    rent: Result<Rent, ProgramError>,
) -> (run: Run<'b>)
    requires
        args@.fits_wire(),
    ensures
        match rent {
            Err(cause) => run.sent@.len() == 0 && run.result == Err::<(), MintError>(
                MintError::RentUnavailable { cause },
            ),
            Ok(schedule) => if rate_in_range(schedule) {
                run.is_run_with(*roles, args@, exempt_balance(schedule, MINT_SPACE as usize))
            } else {
                run.sent@.len() == 0 && run.result matches Err(MintError::RentOutOfRange)
            },
        },
{
    let schedule = match rent {
        Ok(schedule) => schedule,
        Err(cause) => {
            return Run { sent: Vec::new(), result: Err(MintError::RentUnavailable { cause }) };
        },
    };
    match mint_balance(&schedule) {
        Ok(lamports) => issue_calls(roles, args, lamports),
        Err(e) => Run { sent: Vec::new(), result: Err(e) },
    }
}

/// What a run on `accounts` for `args` may be: with fewer accounts than roles
/// nothing is sent and the accounts are the failure; else nothing is sent for
/// want of a rent schedule or of one in range, or the three calls are run with
/// the balance that exempts the mint account from rent under the host's
/// schedule.
pub open spec fn is_run_on<'b>(run: Run<'b>, accounts: Seq<AccountInfo<'b>>, args: ArgsView) -> bool {
    &&& (accounts.len() < ROLE_COUNT <==> (run.result matches Err(MintError::AccountResolution)))
    &&& match run.result {
        Ok(_) | Err(MintError::ExternalCall { .. }) => exists|rent: Rent|
            rate_in_range(rent) && #[trigger] run.is_run_with(
                AccountRoles::of(accounts),
                args,
                exempt_balance(rent, MINT_SPACE as usize),
            ),
        Err(MintError::Decode(_)) => false,
        Err(_) => run.sent@.len() == 0,
    }
}

/// Creates the mint and its metadata record for `args` on the given accounts:
/// binds the accounts to their roles, asks the host for its rent schedule, and
/// goes on from the answer. Nothing is sent with fewer accounts than roles.
pub fn create_nft<'b>(accounts: &[AccountInfo<'b>], args: CreateTokenArgs) -> (run: Run<'b>)
    requires
        args@.fits_wire(),
    ensures
        is_run_on(run, accounts@, args@),
{
    let roles = match AccountRoles::resolve(accounts) {
        Ok(roles) => roles,
        Err(e) => {
            return Run { sent: Vec::new(), result: Err(e) };
        },
    };
    run_with_rent(&roles, &args, current_rent())
}

/// The program's entry point: decodes the payload, then creates the mint and
/// its metadata record on the given accounts. A payload that is not one
/// request is refused before anything is sent. The program's own address plays
/// no part.
pub fn process_instruction<'b>(
    _program_id: &Pubkey,
    accounts: &[AccountInfo<'b>],
    instruction_data: &[u8],
) -> (run: Run<'b>)
    ensures
        match decode_args(instruction_data@) {
            None => {
                &&& run.sent@.len() == 0
                &&& run.result matches Err(MintError::Decode(e)) && e.is_fault_of(
                    instruction_data@,
                )
            },
            Some(args) => is_run_on(run, accounts@, args),
        },
{
    match CreateTokenArgs::try_from_slice(instruction_data) {
        Ok(token_metadata) => create_nft(accounts, token_metadata),
        Err(e) => Run { sent: Vec::new(), result: Err(MintError::Decode(e)) },
    }
}

/// A refused call is the last one sent: no call follows a failure.
pub proof fn lemma_refusal_ends_run<'b>(
    run: Run<'b>,
    roles: AccountRoles<'_, 'b>,
    args: ArgsView,
    lamports: u64,
    k: int,
)
    requires
        run.is_run_with(roles, args, lamports),
        0 <= k < run.sent@.len(),
        !run.sent@[k].accepted,
    ensures
        run.sent@.len() == k + 1,
        run.result matches Err(MintError::ExternalCall { step, .. }) && step == call_order()[k],
{
}

/// The calls are sent in their order, and an accepted call is followed by the
/// next one: with the token program in its role, the run goes on after the
/// first and the second call; without it, the second call is not built and the
/// run ends after the first.
pub proof fn lemma_acceptance_leads_on<'b>(
    run: Run<'b>,
    roles: AccountRoles<'_, 'b>,
    args: ArgsView,
    lamports: u64,
    k: int,
)
    requires
        run.is_run_with(roles, args, lamports),
        0 <= k < run.sent@.len(),
        k < 2,
        run.sent@[k].accepted,
    ensures
        forall|i: int| 0 <= i < run.sent@.len() ==> (#[trigger] run.sent@[i]).call.step == call_order()[i],
        is_token_program(account_key(*roles.token_program)) ==> run.sent@.len() > k + 1,
        !is_token_program(account_key(*roles.token_program)) ==> run.sent@.len() == 1 && (
        run.result matches Err(MintError::ExternalCall { step, .. }) && step == call_order()[1]),
{
    if run.sent@.len() >= 2 {
        assert(run.sent@[1].call.is_planned(call_order()[1], roles, args, lamports));
    }
}

/// The run succeeds exactly when all three calls were sent and accepted; and
/// with the token program in its role, it does whenever every call sent was
/// accepted.
pub proof fn lemma_success_is_three_acceptances<'b>(
    run: Run<'b>,
    roles: AccountRoles<'_, 'b>,
    args: ArgsView,
    lamports: u64,
)
    requires
        run.is_run_with(roles, args, lamports),
    ensures
        run.sent@.len() >= 1,
        run.result is Ok <==> run.sent@.len() == 3 && forall|i: int|
            0 <= i < 3 ==> (#[trigger] run.sent@[i]).accepted,
        is_token_program(account_key(*roles.token_program)) && (forall|i: int|
            0 <= i < run.sent@.len() ==> (#[trigger] run.sent@[i]).accepted) ==> run.result is Ok
            && run.sent@.len() == 3,
{
}

} // verus!
