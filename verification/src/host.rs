//! What this library takes on trust from the host platform's crates: the types
//! it carries through, the builders of the three requests, the dispatcher, and
//! the rent schedule.

use mpl_token_metadata::state::{Collection, CollectionDetails, Creator, Uses};
use solana_program::account_info::AccountInfo;
use solana_program::entrypoint::ProgramResult;
use solana_program::instruction::Instruction;
use solana_program::program_error::ProgramError;
use solana_program::program_pack::Pack;
use solana_program::pubkey::Pubkey;
use solana_program::rent::Rent;
use solana_program::sysvar::Sysvar;
use spl_token::state::Mint;
use vstd::prelude::*;

verus! {

/// An account address. Carried, copied and compared, never read.
#[verifier::external_type_specification]
#[verifier::external_body]
pub struct ExPubkey(Pubkey);

/// The host's handle on one account of the invocation.
#[verifier::external_type_specification]
#[verifier::external_body]
pub struct ExAccountInfo<'a>(AccountInfo<'a>);

/// A request to another program, as its builder made it.
#[verifier::external_type_specification]
#[verifier::external_body]
pub struct ExInstruction(Instruction);

/// The host's error value.
#[verifier::external_type_specification]
#[verifier::external_body]
pub struct ExProgramError(ProgramError);

/// The host's rent schedule.
#[verifier::external_type_specification]
#[verifier::external_body]
pub struct ExRent(Rent);

/// A creator entry of a metadata record. This library never makes one.
#[verifier::external_type_specification]
#[verifier::external_body]
pub struct ExCreator(Creator);

/// A collection reference of a metadata record. This library never makes one.
#[verifier::external_type_specification]
#[verifier::external_body]
pub struct ExCollection(Collection);

/// A use allowance of a metadata record. This library never makes one.
#[verifier::external_type_specification]
#[verifier::external_body]
pub struct ExUses(Uses);

/// The collection details of a metadata record. This library never makes one.
#[verifier::external_type_specification]
#[verifier::external_body]
pub struct ExCollectionDetails(CollectionDetails);

/// The address of the account behind a handle.
pub uninterp spec fn account_key(account: AccountInfo) -> Pubkey;

/// The rate of a rent schedule, in lamports per byte and year.
pub uninterp spec fn lamports_per_byte_year(rent: Rent) -> u64;

/// The balance that exempts an account of `data_len` bytes from rent under a
/// rent schedule, as the host computes it.
pub uninterp spec fn exempt_balance(rent: Rent, data_len: usize) -> u64;

/// Whether an address is the token program's own.
pub uninterp spec fn is_token_program(address: Pubkey) -> bool;

/// The "create account" request that the system program's builder makes of
/// its arguments.
pub uninterp spec fn create_account_request(
    from_pubkey: Pubkey,
    to_pubkey: Pubkey,
    lamports: u64,
    space: u64,
    owner: Pubkey,
) -> Instruction;

/// The "initialize mint" request that the token program's builder makes of its
/// arguments, or the error with which it refuses them.
pub uninterp spec fn initialize_mint_request(
    token_program_id: Pubkey,
    mint_pubkey: Pubkey,
    mint_authority_pubkey: Pubkey,
    freeze_authority_pubkey: Option<&Pubkey>,
    decimals: u8,
) -> Result<Instruction, ProgramError>;

/// The "create metadata" request that the metadata program's builder makes of
/// its arguments.
pub uninterp spec fn create_metadata_request(
    program_id: Pubkey,
    metadata_account: Pubkey,
    mint: Pubkey,
    mint_authority: Pubkey,
    payer: Pubkey,
    update_authority: Pubkey,
    name: Seq<char>,
    symbol: Seq<char>,
    uri: Seq<char>,
    creators: Option<Vec<Creator>>,
    seller_fee_basis_points: u16,
    update_authority_is_signer: bool,
    is_mutable: bool,
    collection: Option<Collection>,
    uses: Option<Uses>,
    collection_details: Option<CollectionDetails>,
) -> Instruction;

/// `system_instruction::create_account`, the system program's builder of a
/// "create account" request. The request is a function of the arguments; it
/// is named, not stated.
pub assume_specification[ solana_program::system_instruction::create_account ](
    from_pubkey: &Pubkey,
    to_pubkey: &Pubkey,
    lamports: u64,
    space: u64,
    owner: &Pubkey,
) -> (request: Instruction)
    ensures
        request == create_account_request(*from_pubkey, *to_pubkey, lamports, space, *owner),
;

/// `spl_token::check_id`, the token program's test of an address against its
/// own.
pub assume_specification[ spl_token::check_id ](id: &Pubkey) -> (own: bool)
    ensures
        own == is_token_program(*id),
;

/// `instruction::initialize_mint`, the token program's builder of an
/// "initialize mint" request. It refuses exactly the program addresses that
/// are not the token program's own, and builds for every other argument. What
/// it builds is a function of the arguments; it is named, not stated.
pub assume_specification[ spl_token::instruction::initialize_mint ](
    token_program_id: &Pubkey,
    mint_pubkey: &Pubkey,
    mint_authority_pubkey: &Pubkey,
    freeze_authority_pubkey: Option<&Pubkey>,
    decimals: u8,
) -> (request: Result<Instruction, ProgramError>)
    ensures
        request == initialize_mint_request(
            *token_program_id,
            *mint_pubkey,
            *mint_authority_pubkey,
            freeze_authority_pubkey,
            decimals,
        ),
        request is Ok <==> is_token_program(*token_program_id),
;

/// `instruction::create_metadata_accounts_v3`, the metadata program's builder
/// of a "create metadata" request. It writes the three strings and the
/// creators with four-byte length prefixes and panics where one of them is too
/// long for that: those inputs are left out. The request is a function of the
/// arguments; it is named, not stated.
pub assume_specification[ mpl_token_metadata::instruction::create_metadata_accounts_v3 ](
    program_id: Pubkey,
    metadata_account: Pubkey,
    mint: Pubkey,
    mint_authority: Pubkey,
    payer: Pubkey,
    update_authority: Pubkey,
    name: String,
    symbol: String,
    uri: String,
    creators: Option<Vec<Creator>>,
    seller_fee_basis_points: u16,
    update_authority_is_signer: bool,
    is_mutable: bool,
    collection: Option<Collection>,
    uses: Option<Uses>,
    collection_details: Option<CollectionDetails>,
) -> (request: Instruction)
    requires
        vstd::utf8::encode_utf8(name@).len() <= u32::MAX,
        vstd::utf8::encode_utf8(symbol@).len() <= u32::MAX,
        vstd::utf8::encode_utf8(uri@).len() <= u32::MAX,
        creators matches Some(list) ==> list@.len() <= u32::MAX,
    ensures
        request == create_metadata_request(
            program_id,
            metadata_account,
            mint,
            mint_authority,
            payer,
            update_authority,
            name@,
            symbol@,
            uri@,
            creators,
            seller_fee_basis_points,
            update_authority_is_signer,
            is_mutable,
            collection,
            uses,
            collection_details,
        ),
;

/// `program::invoke`, the host's dispatcher. Whether the called program
/// succeeds is the host's affair: nothing is claimed of the result. On chain
/// the call does not come back at all where the called program fails.
pub assume_specification[ solana_program::program::invoke ](
    instruction: &Instruction,
    account_infos: &[AccountInfo],
) -> ProgramResult
;

/// `Clone::clone` of an account handle: the copy stands for the same account,
/// with the same address and the same cells behind it.
pub assume_specification<'a>[ <AccountInfo<'a> as Clone>::clone ](
    account: &AccountInfo<'a>,
) -> (copy: AccountInfo<'a>)
    ensures
        copy == *account,
;

/// Reads the address out of an account handle (its field `key`).
#[verifier::external_body]
pub(crate) fn key_of(account: &AccountInfo) -> (key: Pubkey)
    ensures
        key == account_key(*account),
{
    *account.key
}

/// Calls `Rent::get`, which asks the host for its rent schedule. Whether the
/// host has one to give is its affair: nothing is claimed of the result.
#[verifier::external_body]
pub(crate) fn current_rent() -> Result<Rent, ProgramError> {
    Rent::get()
}

/// Reads the rate out of a rent schedule (its field `lamports_per_byte_year`).
#[verifier::external_body]
pub(crate) fn rate_of(rent: &Rent) -> (rate: u64)
    ensures
        rate == lamports_per_byte_year(*rent),
{
    rent.lamports_per_byte_year
}

/// Calls `Rent::minimum_balance`, the balance that exempts an account of
/// `data_len` bytes from rent. It adds 128 bytes of overhead to the length and
/// multiplies the sum by the rate, both in 64 bits and unchecked: inputs where
/// the sum or the product does not fit are left out. The rest of the
/// computation is in floating point: the balance is named, not stated.
#[verifier::external_body]
pub(crate) fn minimum_balance(rent: &Rent, data_len: usize) -> (balance: u64)
    requires
        128 + data_len <= u64::MAX,
        (128 + data_len) * lamports_per_byte_year(*rent) <= u64::MAX,
    ensures
        balance == exempt_balance(*rent, data_len),
{
    rent.minimum_balance(data_len)
}

/// The token program's `Mint::LEN`: the size in bytes of a mint account, which
/// its source gives as 82.
#[verifier::external_body]
pub(crate) fn mint_len() -> (len: usize)
    ensures
        len == 82,
{
    Mint::LEN
}

} // verus!
