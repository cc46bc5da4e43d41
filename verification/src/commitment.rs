use vstd::prelude::*;

verus! {

/// How settled the state a request is served from must be.
#[derive(Clone, Copy, Debug, PartialEq, Eq, Structural)]
pub enum CommitmentLevel {
    /// Same as `Finalized`; kept for older callers.
    Max,
    /// Same as `Processed`; kept for older callers.
    Recent,
    /// Same as `Finalized`; kept for older callers.
    Root,
    /// Same as `Confirmed`; kept for older callers.
    Single,
    /// Same as `Confirmed`; kept for older callers.
    SingleGossip,
    Processed,
    Confirmed,
    Finalized,
}

/// The commitment a request is made with.
#[derive(Clone, Copy, Debug, PartialEq, Eq, Structural)]
pub struct CommitmentConfig {
    pub commitment: CommitmentLevel,
}

impl CommitmentConfig {
    pub fn finalized() -> (c: CommitmentConfig)
        ensures
            c.commitment == CommitmentLevel::Finalized,
    {
        CommitmentConfig { commitment: CommitmentLevel::Finalized }
    }

    pub fn confirmed() -> (c: CommitmentConfig)
        ensures
            c.commitment == CommitmentLevel::Confirmed,
    {
        CommitmentConfig { commitment: CommitmentLevel::Confirmed }
    }

    pub fn processed() -> (c: CommitmentConfig)
        ensures
            c.commitment == CommitmentLevel::Processed,
    {
        CommitmentConfig { commitment: CommitmentLevel::Processed }
    }
}

/// How far a transaction has been confirmed, as an RPC node reports it.
#[derive(Clone, Copy, Debug, PartialEq, Eq, Structural)]
pub enum TransactionConfirmationStatus {
    Processed,
    Confirmed,
    Finalized,
}

/// Whether a transaction at confirmation status `current` has reached the
/// commitment `required`: `Finalized` asks for a finalized transaction,
/// `Confirmed` for a confirmed or finalized one, any other level for nothing.
pub open spec fn commitment_satisfied(
    required: CommitmentLevel,
    current: TransactionConfirmationStatus,
) -> bool {
    match required {
        CommitmentLevel::Finalized => current == TransactionConfirmationStatus::Finalized,
        CommitmentLevel::Confirmed => current == TransactionConfirmationStatus::Finalized
            || current == TransactionConfirmationStatus::Confirmed,
        _ => true,
    }
}

pub fn commitment_matches(
    required: CommitmentLevel,
    current: TransactionConfirmationStatus,
) -> (b: bool)
    ensures
        b == commitment_satisfied(required, current),
{
    match required {
        CommitmentLevel::Finalized => match current {
            TransactionConfirmationStatus::Finalized => true,
            _ => false,
        },
        CommitmentLevel::Confirmed => match current {
            TransactionConfirmationStatus::Finalized => true,
            TransactionConfirmationStatus::Confirmed => true,
            _ => false,
        },
        _ => true,
    }
}

/// A finalized transaction satisfies every commitment.
pub proof fn lemma_finalized_satisfies_all(required: CommitmentLevel)
    ensures
        commitment_satisfied(required, TransactionConfirmationStatus::Finalized),
{
}

/// Whatever satisfies a stronger commitment satisfies a weaker one: what
/// reaches `Finalized` reaches `Confirmed`, and what reaches `Confirmed`
/// reaches `Processed`.
pub proof fn lemma_commitment_monotone(current: TransactionConfirmationStatus)
    ensures
        commitment_satisfied(CommitmentLevel::Finalized, current)
            ==> commitment_satisfied(CommitmentLevel::Confirmed, current),
        commitment_satisfied(CommitmentLevel::Confirmed, current)
            ==> commitment_satisfied(CommitmentLevel::Processed, current),
        commitment_satisfied(CommitmentLevel::Processed, current),
{
}

} // verus!
