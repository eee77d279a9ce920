//! The accounts of an invocation, bound to their roles by position.

use crate::error::MintError;
use crate::host::{account_key, is_token_program, key_of};
use crate::stage::Step;
use solana_program::account_info::AccountInfo;
use vstd::prelude::*;

verus! {

/// The number of roles, and so the least number of accounts.
pub const ROLE_COUNT: usize = 8;

/// The accounts that an invocation works on, each under the name of its role.
pub struct AccountRoles<'a, 'b> {
    /// The account that becomes the mint.
    pub mint_account: &'a AccountInfo<'b>,
    /// The authority over minting, freezing and the metadata.
    pub mint_authority: &'a AccountInfo<'b>,
    /// The account that becomes the metadata record.
    pub metadata_account: &'a AccountInfo<'b>,
    /// The account that pays for the new accounts.
    pub payer: &'a AccountInfo<'b>,
    /// The rent sysvar.
    pub rent: &'a AccountInfo<'b>,
    /// The system program.
    pub system_program: &'a AccountInfo<'b>,
    /// The token program.
    pub token_program: &'a AccountInfo<'b>,
    /// The metadata program.
    pub token_metadata_program: &'a AccountInfo<'b>,
}

impl<'a, 'b> AccountRoles<'a, 'b> {
    /// The roles as the first `ROLE_COUNT` entries of `accounts` fill them, in
    /// this order: mint account, mint authority, metadata account, payer, rent
    /// sysvar, system program, token program, metadata program.
    pub open spec fn of(accounts: Seq<AccountInfo<'b>>) -> AccountRoles<'a, 'b>
        recommends
            accounts.len() >= ROLE_COUNT,
    {
        AccountRoles {
            mint_account: &accounts[0],
            mint_authority: &accounts[1],
            metadata_account: &accounts[2],
            payer: &accounts[3],
            rent: &accounts[4],
            system_program: &accounts[5],
            token_program: &accounts[6],
            token_metadata_program: &accounts[7],
        }
    }

    /// Binds the accounts to their roles by position. Accounts behind the
    /// eighth are ignored; with fewer than eight there is nothing to bind.
    pub fn resolve(accounts: &'a [AccountInfo<'b>]) -> (r: Result<AccountRoles<'a, 'b>, MintError>)
        ensures
            accounts@.len() >= ROLE_COUNT ==> (r matches Ok(roles) && roles == Self::of(accounts@)),
            accounts@.len() < ROLE_COUNT ==> (r matches Err(MintError::AccountResolution)),
    {
        if accounts.len() < ROLE_COUNT {
            return Err(MintError::AccountResolution);
        }
        Ok(
            AccountRoles {
                mint_account: &accounts[0],
                mint_authority: &accounts[1],
                metadata_account: &accounts[2],
                payer: &accounts[3],
                rent: &accounts[4],
                system_program: &accounts[5],
                token_program: &accounts[6],
                token_metadata_program: &accounts[7],
            },
        )
    }

    /// Whether the account in the token program's role is the token program:
    /// the second call can be built with no other.
    pub fn names_token_program(&self) -> (named: bool)
        ensures
            named == is_token_program(account_key(*self.token_program)),
    {
        let key = key_of(self.token_program);
        spl_token::check_id(&key)
    }

    /// The accounts that go with each call, in the order in which they are
    /// handed over.
    pub open spec fn accounts_for(self, step: Step) -> Seq<AccountInfo<'b>> {
        match step {
            Step::CreateAccount => seq![
                *self.mint_account,
                *self.payer,
                *self.system_program,
                *self.token_program,
            ],
            Step::InitializeMint => seq![
                *self.mint_account,
                *self.mint_authority,
                *self.token_program,
                *self.rent,
            ],
            Step::CreateMetadata => seq![
                *self.metadata_account,
                *self.mint_account,
                *self.mint_authority,
                *self.payer,
                *self.token_metadata_program,
                *self.rent,
            ],
        }
    }

    /// Copies the handles of the accounts that go with `step`.
    pub fn gather(&self, step: Step) -> (list: Vec<AccountInfo<'b>>)
        ensures
            list@ == self.accounts_for(step),
    {
        let mut list: Vec<AccountInfo<'b>> = Vec::new();
        match step {
            Step::CreateAccount => {
                list.push(self.mint_account.clone());
                list.push(self.payer.clone());
                list.push(self.system_program.clone());
                list.push(self.token_program.clone());
            },
            Step::InitializeMint => {
                list.push(self.mint_account.clone());
                list.push(self.mint_authority.clone());
                list.push(self.token_program.clone());
                list.push(self.rent.clone());
            },
            Step::CreateMetadata => {
                list.push(self.metadata_account.clone());
                list.push(self.mint_account.clone());
                list.push(self.mint_authority.clone());
                list.push(self.payer.clone());
                list.push(self.token_metadata_program.clone());
                list.push(self.rent.clone());
            },
        }
        list
    }
}

} // verus!
