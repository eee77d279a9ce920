//! The progress of one invocation and the order of its three calls.

use crate::error::MintError;
use solana_program::program_error::ProgramError;
use vstd::prelude::*;

verus! {

/// The calls into other programs, in the order in which they are made.
#[derive(Clone, Copy, Debug, PartialEq, Eq, Structural)]
pub enum Step {
    /// The system program allocates the mint account.
    CreateAccount,
    /// The token program initializes it as a mint.
    InitializeMint,
    /// The metadata program creates the record that describes the mint.
    CreateMetadata,
}

/// How far an invocation has come.
#[derive(Clone, Copy, Debug, PartialEq, Eq, Structural)]
pub enum Stage {
    /// Nothing has been looked at yet.
    Idle,
    /// The payload is taken in; the mint account is still to be created.
    Decoding,
    /// The mint account exists.
    AccountCreated,
    /// The mint account is a mint.
    MintInitialized,
    /// The metadata record exists: the invocation has succeeded.
    MetadataCreated,
    /// Something failed: the invocation is over.
    Failed,
}

/// The three calls in their order.
pub open spec fn call_order() -> Seq<Step> {
    seq![Step::CreateAccount, Step::InitializeMint, Step::CreateMetadata]
}

impl Stage {
    /// The call that is made next in this stage, if one is.
    pub open spec fn pending(self) -> Option<Step> {
        match self {
            Stage::Decoding => Some(Step::CreateAccount),
            Stage::AccountCreated => Some(Step::InitializeMint),
            Stage::MintInitialized => Some(Step::CreateMetadata),
            _ => None,
        }
    }

    /// The calls that have succeeded when this stage is reached.
    pub open spec fn calls_behind(self) -> Seq<Step> {
        match self {
            Stage::AccountCreated => call_order().take(1),
            Stage::MintInitialized => call_order().take(2),
            Stage::MetadataCreated => call_order(),
            _ => Seq::empty(),
        }
    }

    /// The stage that follows when what this stage waits for has succeeded.
    /// The two final stages follow themselves.
    pub open spec fn succeeded(self) -> Stage {
        match self {
            Stage::Idle => Stage::Decoding,
            Stage::Decoding => Stage::AccountCreated,
            Stage::AccountCreated => Stage::MintInitialized,
            Stage::MintInitialized => Stage::MetadataCreated,
            Stage::MetadataCreated => Stage::MetadataCreated,
            Stage::Failed => Stage::Failed,
        }
    }

    /// The stage that follows the outcome of the pending call.
    pub open spec fn after(self, ok: bool) -> Stage {
        if ok {
            self.succeeded()
        } else {
            Stage::Failed
        }
    }

    /// The call to make next, if there is one.
    pub fn next_call(self) -> (step: Option<Step>)
        ensures
            step == self.pending(),
    {
        match self {
            Stage::Decoding => Some(Step::CreateAccount),
            Stage::AccountCreated => Some(Step::InitializeMint),
            Stage::MintInitialized => Some(Step::CreateMetadata),
            _ => None,
        }
    }

    /// Moves on after a success.
    pub fn advance(self) -> (next: Stage)
        ensures
            next == self.succeeded(),
    {
        match self {
            Stage::Idle => Stage::Decoding,
            Stage::Decoding => Stage::AccountCreated,
            Stage::AccountCreated => Stage::MintInitialized,
            Stage::MintInitialized => Stage::MetadataCreated,
            Stage::MetadataCreated => Stage::MetadataCreated,
            Stage::Failed => Stage::Failed,
        }
    }

    /// Takes in what came back for the pending call: a success leads to the
    /// next stage, a failure ends the invocation with the host's error under
    /// the name of the call.
    pub fn settle(self, outcome: Result<(), ProgramError>) -> (r: Result<Stage, MintError>)
        requires
            self.pending() is Some,
        ensures
            match outcome {
                Ok(_) => r == Ok::<Stage, MintError>(self.after(true)),
                Err(cause) => r == Err::<Stage, MintError>(
                    MintError::ExternalCall { step: self.pending().unwrap(), cause },
                ),
            },
    {
        match outcome {
            Ok(_) => Ok(self.advance()),
            Err(cause) => match self {
                Stage::Decoding => Err(MintError::ExternalCall { step: Step::CreateAccount, cause }),
                Stage::AccountCreated => Err(
                    MintError::ExternalCall { step: Step::InitializeMint, cause },
                ),
                _ => Err(MintError::ExternalCall { step: Step::CreateMetadata, cause }),
            },
        }
    }
}

} // verus!
