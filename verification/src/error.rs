//! Why an invocation fails.

use crate::payload::DecodeError;
use crate::stage::Step;
use solana_program::program_error::ProgramError;
use vstd::prelude::*;

verus! {

/// The failure of an invocation. Each one ends it: nothing is retried, and the
/// calls that were still to come are not made.
#[derive(Debug)]
pub enum MintError {
    /// The payload is not one request.
    Decode(DecodeError),
    /// Fewer accounts were supplied than there are roles.
    AccountResolution,
    /// The host had no rent schedule to give. `cause` is its error, as it came.
    RentUnavailable { cause: ProgramError },
    /// The host's rent schedule has a rate so large that the balance of the
    /// mint account cannot be computed from it.
    RentOutOfRange,
    /// The call `step` failed: its request could not be built, or the called
    /// program refused it. `cause` is the host's error, as it came.
    ExternalCall { step: Step, cause: ProgramError },
}

} // verus!
