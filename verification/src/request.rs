//! What each of the three calls asks for, and the making of a call from it.

use crate::host::{
    account_key, create_account_request, create_metadata_request, initialize_mint_request,
    is_token_program, key_of, mint_len,
};
use crate::payload::{ArgsView, CreateTokenArgs};
use crate::roles::AccountRoles;
use crate::stage::Step;
use mpl_token_metadata::instruction::create_metadata_accounts_v3;
use solana_program::account_info::AccountInfo;
use solana_program::instruction::Instruction;
use solana_program::program_error::ProgramError;
use solana_program::system_instruction::create_account;
use spl_token::instruction::initialize_mint;
use vstd::prelude::*;

verus! {

/// The size in bytes of a mint account.
pub const MINT_SPACE: u64 = 82;

/// The number of decimal places of the mint: its tokens are not divisible.
pub const MINT_DECIMALS: u8 = 0;

/// The royalty of the metadata record, in basis points.
pub const SELLER_FEE_BASIS_POINTS: u16 = 0;

/// A call as it is handed to the host: the request and the accounts that go
/// with it.
#[derive(Debug)]
pub struct Call<'b> {
    /// Which of the three calls this is.
    pub step: Step,
    pub request: Instruction,
    pub accounts: Vec<AccountInfo<'b>>,
}

/// The request of each call, as the accounts in their roles, the token's three
/// strings and the balance of the mint account fix it.
///
/// - The system program is asked for a new account at the mint's address,
///   funded by the payer with `lamports`, of the size of a mint, owned by the
///   token program.
/// - The token program is asked to make that account a mint without decimal
///   places; the mint authority may mint and, named expressly, may freeze.
/// - The metadata program is asked for a record of the mint at the metadata
///   account's address, with the three strings as they are. The mint authority
///   is the update authority and signs; the record cannot be changed later; it
///   has no creators, no royalty, no collection, no uses and no collection
///   details.
///
/// Only the token program's builder can refuse.
pub open spec fn request_for(step: Step, roles: AccountRoles, args: ArgsView, lamports: u64) -> Result<
    Instruction,
    ProgramError,
> {
    let mint = account_key(*roles.mint_account);
    let authority = account_key(*roles.mint_authority);
    let payer = account_key(*roles.payer);
    let token_program = account_key(*roles.token_program);
    match step {
        Step::CreateAccount => Ok(
            create_account_request(payer, mint, lamports, MINT_SPACE, token_program),
        ),
        Step::InitializeMint => initialize_mint_request(
            token_program,
            mint,
            authority,
            Some(&authority),
            MINT_DECIMALS,
        ),
        Step::CreateMetadata => Ok(
            create_metadata_request(
                account_key(*roles.token_metadata_program),
                account_key(*roles.metadata_account),
                mint,
                authority,
                payer,
                authority,
                args.title,
                args.symbol,
                args.uri,
                None,
                SELLER_FEE_BASIS_POINTS,
                true,
                false,
                None,
                None,
                None,
            ),
        ),
    }
}

/// Whether the builder of `step` builds for the given accounts: all do but the
/// token program's, which wants its own address in the token program's role.
pub open spec fn builder_accepts(step: Step, roles: AccountRoles) -> bool {
    step == Step::InitializeMint ==> is_token_program(account_key(*roles.token_program))
}

impl<'b> Call<'b> {
    /// Whether this is the call `step` as it is to be made for the given
    /// accounts, strings and balance: its builder builds for them, the request
    /// is what it builds, and the accounts are those that go with the call.
    pub open spec fn is_planned(
        self,
        step: Step,
        roles: AccountRoles<'_, 'b>,
        args: ArgsView,
        lamports: u64,
    ) -> bool {
        &&& self.step == step
        &&& builder_accepts(step, roles)
        &&& request_for(step, roles, args, lamports) == Ok::<Instruction, ProgramError>(self.request)
        &&& self.accounts@ == roles.accounts_for(step)
    }
}

/// Makes the call `step` ready for the host: builds its request and copies the
/// handles of the accounts that go with it. Where the builder refuses, its
/// error is returned.
pub fn prepare<'b>(
    step: Step,
    roles: &AccountRoles<'_, 'b>,
    args: &CreateTokenArgs,
    lamports: u64,
) -> (r: Result<Call<'b>, ProgramError>)
    requires
        args@.fits_wire(),
    ensures
        r is Ok <==> builder_accepts(step, *roles),
        match request_for(step, *roles, args@, lamports) {
            Ok(_) => r matches Ok(call) && call.is_planned(step, *roles, args@, lamports),
            Err(cause) => r matches Err(e) && e == cause,
        },
{
    let mint = key_of(roles.mint_account);
    let authority = key_of(roles.mint_authority);
    let payer = key_of(roles.payer);
    let token_program = key_of(roles.token_program);
    let request = match step {
        Step::CreateAccount => create_account(
            &payer,
            &mint,
            lamports,
            mint_len() as u64,
            &token_program,
        ),
        Step::InitializeMint => initialize_mint(
            &token_program,
            &mint,
            &authority,
            Some(&authority),
            MINT_DECIMALS,
        )?,
        Step::CreateMetadata => create_metadata_accounts_v3(
            key_of(roles.token_metadata_program),
            key_of(roles.metadata_account),
            mint,
            authority,
            payer,
            authority,
            args.nft_title.clone(),
            args.nft_symbol.clone(),
            args.nft_uri.clone(),
            None,
            SELLER_FEE_BASIS_POINTS,
            true,
            false,
            None,
            None,
            None,
        ),
    };
    Ok(Call { step, request, accounts: roles.gather(step) })
}

} // verus!
