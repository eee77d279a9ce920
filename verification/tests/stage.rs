use nft_minter::error::MintError;
use nft_minter::stage::{Stage, Step};
use solana_program::program_error::ProgramError;

const ALL: [Stage; 6] = [
    Stage::Idle,
    Stage::Decoding,
    Stage::AccountCreated,
    Stage::MintInitialized,
    Stage::MetadataCreated,
    Stage::Failed,
];

/// Runs the stages from `Decoding` on the given outcomes and lists the calls made.
fn run(outcomes: &[bool]) -> (Vec<Step>, Stage) {
    let mut stage = Stage::Decoding;
    let mut made = Vec::new();
    for ok in outcomes {
        let step = match stage.next_call() {
            Some(step) => step,
            None => break,
        };
        made.push(step);
        let outcome = if *ok { Ok(()) } else { Err(ProgramError::Custom(9)) };
        stage = match stage.settle(outcome) {
            Ok(next) => next,
            Err(_) => Stage::Failed,
        };
    }
    (made, stage)
}

#[test]
fn each_stage_names_its_call() {
    assert_eq!(Stage::Idle.next_call(), None);
    assert_eq!(Stage::Decoding.next_call(), Some(Step::CreateAccount));
    assert_eq!(Stage::AccountCreated.next_call(), Some(Step::InitializeMint));
    assert_eq!(Stage::MintInitialized.next_call(), Some(Step::CreateMetadata));
    assert_eq!(Stage::MetadataCreated.next_call(), None);
    assert_eq!(Stage::Failed.next_call(), None);
}

#[test]
fn stages_follow_one_another() {
    assert_eq!(Stage::Idle.advance(), Stage::Decoding);
    assert_eq!(Stage::Decoding.advance(), Stage::AccountCreated);
    assert_eq!(Stage::AccountCreated.advance(), Stage::MintInitialized);
    assert_eq!(Stage::MintInitialized.advance(), Stage::MetadataCreated);
}

#[test]
fn final_stages_stay() {
    assert_eq!(Stage::MetadataCreated.advance(), Stage::MetadataCreated);
    assert_eq!(Stage::Failed.advance(), Stage::Failed);
}

#[test]
fn a_success_settles_into_the_next_stage() {
    for stage in ALL {
        if stage.next_call().is_some() {
            match stage.settle(Ok(())) {
                Ok(next) => assert_eq!(next, stage.advance()),
                Err(e) => panic!("{:?}", e),
            }
        }
    }
}

#[test]
fn a_failure_settles_into_the_error_of_its_call() {
    for stage in ALL {
        if let Some(expected) = stage.next_call() {
            match stage.settle(Err(ProgramError::Custom(41))) {
                Err(MintError::ExternalCall { step, cause }) => {
                    assert_eq!(step, expected);
                    assert_eq!(cause, ProgramError::Custom(41));
                },
                other => panic!("{:?}", other),
            }
        }
    }
}

#[test]
fn three_successes_make_three_calls_in_order() {
    let (made, stage) = run(&[true, true, true]);
    assert_eq!(made, vec![Step::CreateAccount, Step::InitializeMint, Step::CreateMetadata]);
    assert_eq!(stage, Stage::MetadataCreated);
}

#[test]
fn no_call_follows_the_third() {
    let (made, stage) = run(&[true, true, true, true, false]);
    assert_eq!(made.len(), 3);
    assert_eq!(stage, Stage::MetadataCreated);
}

#[test]
fn a_failure_is_the_last_call() {
    let order = [Step::CreateAccount, Step::InitializeMint, Step::CreateMetadata];
    for failing in 0..3 {
        let mut outcomes = vec![true; 3];
        outcomes[failing] = false;
        let (made, stage) = run(&outcomes);
        assert_eq!(made, order[..failing + 1].to_vec());
        assert_eq!(stage, Stage::Failed);
    }
}

#[test]
fn every_run_is_a_prefix_of_the_order() {
    let order = [Step::CreateAccount, Step::InitializeMint, Step::CreateMetadata];
    for bits in 0..32u32 {
        for len in 0..=5usize {
            let outcomes: Vec<bool> = (0..len).map(|i| bits & (1 << i) != 0).collect();
            let (made, _) = run(&outcomes);
            let successes = outcomes.iter().take_while(|ok| **ok).count();
            let expected = (successes + 1).min(3).min(len);
            assert_eq!(made, order[..expected].to_vec());
        }
    }
}
