//! The balance of the mint account: the least that exempts it from rent.

use crate::error::MintError;
use crate::host::{exempt_balance, lamports_per_byte_year, minimum_balance, mint_len, rate_of};
use crate::request::MINT_SPACE;
use solana_program::rent::Rent;
use vstd::prelude::*;

verus! {

/// The bytes that the host counts on top of an account's data when it
/// computes rent.
pub const STORAGE_OVERHEAD: u64 = 128;

/// Whether the host can compute the balance of a mint account from `rent`:
/// its rate, times the size of the account with the overhead, fits 64 bits.
pub open spec fn rate_in_range(rent: Rent) -> bool {
    (STORAGE_OVERHEAD + MINT_SPACE) * lamports_per_byte_year(rent) <= u64::MAX
}

/// The balance that keeps the mint account exempt from rent under `rent`.
/// The host computes it; a schedule whose rate is too large for the host's
/// computation is refused before the host is asked.
pub fn mint_balance(rent: &Rent) -> (r: Result<u64, MintError>)
    ensures
        rate_in_range(*rent) ==> r == Ok::<u64, MintError>(
            exempt_balance(*rent, MINT_SPACE as usize),
        ),
        !rate_in_range(*rent) ==> r matches Err(MintError::RentOutOfRange),
{
    let len: usize = mint_len();
    let rate: u64 = rate_of(rent);
    if rate > u64::MAX / (STORAGE_OVERHEAD + MINT_SPACE) {
        return Err(MintError::RentOutOfRange);
    }
    Ok(minimum_balance(rent, len))
}

} // verus!
