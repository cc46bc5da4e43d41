use solana_client_icp::commitment::{
    commitment_matches, CommitmentConfig, CommitmentLevel, TransactionConfirmationStatus,
};
use solana_client_icp::confirm::{Confirmation, ConfirmationStep, SignatureStatus, MAX_RETRIES};

fn status(c: Option<TransactionConfirmationStatus>, failed: bool) -> Option<SignatureStatus> {
    Some(SignatureStatus { confirmation_status: c, failed })
}

fn run(commitment: CommitmentConfig, replies: &[Option<SignatureStatus>]) -> (bool, usize) {
    let mut step = Confirmation::start(commitment);
    let mut polls = 0usize;
    loop {
        match step {
            ConfirmationStep::Finished(b) => return (b, polls),
            ConfirmationStep::Poll(c) => {
                let reply = if polls < replies.len() { replies[polls] } else { None };
                polls += 1;
                step = c.observe(reply);
            }
        }
    }
}

#[test]
fn commitment_matching_table() {
    assert!(commitment_matches(CommitmentLevel::Finalized, TransactionConfirmationStatus::Finalized));
    assert!(!commitment_matches(CommitmentLevel::Finalized, TransactionConfirmationStatus::Confirmed));
    assert!(!commitment_matches(CommitmentLevel::Finalized, TransactionConfirmationStatus::Processed));
    assert!(commitment_matches(CommitmentLevel::Confirmed, TransactionConfirmationStatus::Finalized));
    assert!(commitment_matches(CommitmentLevel::Confirmed, TransactionConfirmationStatus::Confirmed));
    assert!(!commitment_matches(CommitmentLevel::Confirmed, TransactionConfirmationStatus::Processed));
    assert!(commitment_matches(CommitmentLevel::Processed, TransactionConfirmationStatus::Processed));
    assert!(commitment_matches(CommitmentLevel::Recent, TransactionConfirmationStatus::Processed));
    assert!(commitment_matches(CommitmentLevel::Max, TransactionConfirmationStatus::Processed));
}

#[test]
fn finalized_status_satisfies_every_commitment() {
    for level in [
        CommitmentLevel::Max,
        CommitmentLevel::Recent,
        CommitmentLevel::Root,
        CommitmentLevel::Single,
        CommitmentLevel::SingleGossip,
        CommitmentLevel::Processed,
        CommitmentLevel::Confirmed,
        CommitmentLevel::Finalized,
    ] {
        assert!(commitment_matches(level, TransactionConfirmationStatus::Finalized));
    }
}

#[test]
fn confirmation_waits_for_required_commitment() {
    let replies = [
        None,
        status(None, false),
        status(Some(TransactionConfirmationStatus::Processed), false),
        status(Some(TransactionConfirmationStatus::Confirmed), false),
        status(Some(TransactionConfirmationStatus::Finalized), false),
    ];
    assert_eq!(run(CommitmentConfig::finalized(), &replies), (true, 5));
    assert_eq!(run(CommitmentConfig::confirmed(), &replies), (true, 4));
    assert_eq!(run(CommitmentConfig::processed(), &replies), (true, 3));
}

#[test]
fn confirmed_but_failed_transaction_is_no_success() {
    let replies = [status(Some(TransactionConfirmationStatus::Confirmed), true), status(Some(TransactionConfirmationStatus::Finalized), false)];
    assert_eq!(run(CommitmentConfig::confirmed(), &replies), (false, 1));
}

#[test]
fn confirmation_gives_up_after_max_retries() {
    assert_eq!(MAX_RETRIES, 40);
    let (ok, polls) = run(CommitmentConfig::confirmed(), &[]);
    assert!(!ok);
    assert_eq!(polls as u64, MAX_RETRIES);
}

#[test]
fn settling_on_the_last_allowed_poll_counts() {
    let mut replies = vec![None; MAX_RETRIES as usize - 1];
    replies.push(status(Some(TransactionConfirmationStatus::Finalized), false));
    assert_eq!(run(CommitmentConfig::finalized(), &replies), (true, MAX_RETRIES as usize));
    replies.insert(0, None);
    assert_eq!(run(CommitmentConfig::finalized(), &replies), (false, MAX_RETRIES as usize));
}
