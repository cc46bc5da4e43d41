use vstd::prelude::*;
use crate::commitment::{
    commitment_matches, commitment_satisfied, CommitmentConfig, CommitmentLevel,
    TransactionConfirmationStatus,
};

verus! {

/// How many times the status of a transaction is asked for before its
/// confirmation is given up.
pub const MAX_RETRIES: u64 = 40;

/// What the confirmation of a transaction reads of its status.
#[derive(Clone, Copy, Debug, PartialEq, Eq, Structural)]
pub struct SignatureStatus {
    /// How far the transaction has been confirmed, where the node says so.
    pub confirmation_status: Option<TransactionConfirmationStatus>,
    /// Whether the transaction failed.
    pub failed: bool,
}

/// Whether a status reply shows the transaction at the required commitment.
pub open spec fn settles(required: CommitmentLevel, status: Option<SignatureStatus>) -> bool {
    match status {
        Some(s) => match s.confirmation_status {
            Some(c) => commitment_satisfied(required, c),
            None => false,
        },
        None => false,
    }
}

/// A confirmation in progress: the commitment it waits for, and how many
/// status replies it has read.
#[derive(Clone, Copy, Debug, PartialEq, Eq, Structural)]
pub struct Confirmation {
    pub required: CommitmentLevel,
    pub polls: u64,
}

/// What a confirmation does next: ask for the status again, or end with
/// whether the transaction is confirmed and succeeded.
#[derive(Clone, Copy, Debug, PartialEq, Eq, Structural)]
pub enum ConfirmationStep {
    Poll(Confirmation),
    Finished(bool),
}

pub open spec fn spec_start(commitment: CommitmentConfig) -> ConfirmationStep {
    if MAX_RETRIES == 0 {
        ConfirmationStep::Finished(false)
    } else {
        ConfirmationStep::Poll(Confirmation { required: commitment.commitment, polls: 0 })
    }
}

pub open spec fn spec_observe(c: Confirmation, status: Option<SignatureStatus>) -> ConfirmationStep {
    if settles(c.required, status) {
        ConfirmationStep::Finished(!status->0.failed)
    } else if c.polls + 1 >= MAX_RETRIES {
        ConfirmationStep::Finished(false)
    } else {
        ConfirmationStep::Poll(Confirmation { required: c.required, polls: (c.polls + 1) as u64 })
    }
}

/// The step a confirmation reaches when it is handed the status replies
/// `statuses` one by one, for as long as it asks for them.
pub open spec fn drive(step: ConfirmationStep, statuses: Seq<Option<SignatureStatus>>) -> ConfirmationStep
    decreases statuses.len(),
{
    match step {
        ConfirmationStep::Finished(_) => step,
        ConfirmationStep::Poll(c) => if statuses.len() == 0 {
            step
        } else {
            drive(spec_observe(c, statuses[0]), statuses.drop_first())
        },
    }
}

/// `statuses[i]` is the first of the first `limit` replies that shows the
/// required commitment.
pub open spec fn first_settled_within(
    required: CommitmentLevel,
    statuses: Seq<Option<SignatureStatus>>,
    limit: int,
    i: int,
) -> bool {
    &&& 0 <= i < statuses.len()
    &&& i < limit
    &&& settles(required, statuses[i])
    &&& forall|j: int| 0 <= j < i ==> !settles(required, #[trigger] statuses[j])
}

/// Whether a transaction counts as confirmed after the replies `statuses`:
/// one of the first `limit` replies shows the required commitment, and the
/// first such reply shows no failure.
pub open spec fn confirmed_within(
    required: CommitmentLevel,
    statuses: Seq<Option<SignatureStatus>>,
    limit: int,
) -> bool {
    exists|i: int|
        first_settled_within(required, statuses, limit, i) && !(#[trigger] statuses[i])->0.failed
}

impl Confirmation {
    /// A confirmation in progress has asked for fewer than `MAX_RETRIES`
    /// statuses.
    pub open spec fn wf(&self) -> bool {
        self.polls < MAX_RETRIES
    }

    /// The first step of confirming a transaction at `commitment`.
    pub fn start(commitment: CommitmentConfig) -> (step: ConfirmationStep)
        ensures
            step == spec_start(commitment),
            step matches ConfirmationStep::Poll(c) ==> c.wf(),
    {
        if MAX_RETRIES == 0 {
            ConfirmationStep::Finished(false)
        } else {
            ConfirmationStep::Poll(Confirmation { required: commitment.commitment, polls: 0 })
        }
    }

    /// The next step once the status of the transaction has been read.
    pub fn observe(self, status: Option<SignatureStatus>) -> (step: ConfirmationStep)
        requires
            self.wf(),
        ensures
            step == spec_observe(self, status),
            step matches ConfirmationStep::Poll(c) ==> c.wf(),
    {
        let settled = match status {
            Some(s) => match s.confirmation_status {
                Some(current) => commitment_matches(self.required, current),
                None => false,
            },
            None => false,
        };
        if settled {
            let failed = match status {
                Some(s) => s.failed,
                None => true,
            };
            ConfirmationStep::Finished(!failed)
        } else if self.polls + 1 >= MAX_RETRIES {
            ConfirmationStep::Finished(false)
        } else {
            ConfirmationStep::Poll(Confirmation { required: self.required, polls: self.polls + 1 })
        }
    }
}

/// Observing a status reply follows the order of commitments: a finalized
/// transaction reaches every commitment, a confirmed one every commitment but
/// `Finalized`, a processed one every commitment but `Finalized` and
/// `Confirmed`. A reply that reaches the required commitment ends the
/// confirmation, in success exactly when the transaction did not fail; any
/// other reply (no status, no confirmation status, or one below the
/// requirement) asks again, until the retries run out.
pub proof fn lemma_observe_follows_commitment_order(c: Confirmation, status: Option<SignatureStatus>)
    requires
        c.wf(),
    ensures
        ({
            let reached = match status {
                Some(s) => match s.confirmation_status {
                    Some(TransactionConfirmationStatus::Finalized) => true,
                    Some(TransactionConfirmationStatus::Confirmed) => c.required
                        != CommitmentLevel::Finalized,
                    Some(TransactionConfirmationStatus::Processed) => c.required
                        != CommitmentLevel::Finalized && c.required != CommitmentLevel::Confirmed,
                    None => false,
                },
                None => false,
            };
            &&& reached ==> spec_observe(c, status) == ConfirmationStep::Finished(!status->0.failed)
            &&& !reached ==> spec_observe(c, status) == if c.polls + 1 >= MAX_RETRIES {
                ConfirmationStep::Finished(false)
            } else {
                ConfirmationStep::Poll(Confirmation { required: c.required, polls: (c.polls + 1) as u64 })
            }
        }),
{
}

/// A transaction that is finalized and did not fail is confirmed at once,
/// whatever commitment is asked for.
pub proof fn lemma_finalized_reply_confirms(c: Confirmation, failed: bool)
    requires
        c.wf(),
    ensures
        spec_observe(
            c,
            Some(SignatureStatus { confirmation_status: Some(TransactionConfirmationStatus::Finalized), failed }),
        ) == ConfirmationStep::Finished(!failed),
{
}

proof fn lemma_drive_from(c: Confirmation, statuses: Seq<Option<SignatureStatus>>)
    requires
        c.polls < MAX_RETRIES,
        statuses.len() >= MAX_RETRIES - c.polls,
    ensures
        drive(ConfirmationStep::Poll(c), statuses) == ConfirmationStep::Finished(
            confirmed_within(c.required, statuses, MAX_RETRIES - c.polls),
        ),
    decreases statuses.len(),
{
    let r = c.required;
    let limit = MAX_RETRIES - c.polls;
    let next = spec_observe(c, statuses[0]);
    assert(drive(ConfirmationStep::Poll(c), statuses) == drive(next, statuses.drop_first()));
    if settles(r, statuses[0]) {
        assert(drive(next, statuses.drop_first()) == next);
        assert(first_settled_within(r, statuses, limit, 0));
        if !statuses[0]->0.failed {
            assert(confirmed_within(r, statuses, limit));
        } else {
            assert forall|i: int| first_settled_within(r, statuses, limit, i) implies i == 0 by {
                if i > 0 {
                    assert(!settles(r, statuses[0]));
                }
            }
            assert(!confirmed_within(r, statuses, limit));
        }
    } else if c.polls + 1 >= MAX_RETRIES {
        assert(drive(next, statuses.drop_first()) == next);
        assert(!confirmed_within(r, statuses, limit));
    } else {
        let rest = statuses.drop_first();
        let c2 = Confirmation { required: r, polls: (c.polls + 1) as u64 };
        lemma_drive_from(c2, rest);
        if confirmed_within(r, statuses, limit) {
            let i = choose|i: int|
                first_settled_within(r, statuses, limit, i) && !(#[trigger] statuses[i])->0.failed;
            assert(i > 0);
            assert(rest[i - 1] == statuses[i]);
            assert forall|j: int| 0 <= j < i - 1 implies !settles(r, #[trigger] rest[j]) by {
                assert(rest[j] == statuses[j + 1]);
            }
            assert(first_settled_within(r, rest, limit - 1, i - 1));
            assert(confirmed_within(r, rest, limit - 1));
        }
        if confirmed_within(r, rest, limit - 1) {
            let k = choose|k: int|
                first_settled_within(r, rest, limit - 1, k) && !(#[trigger] rest[k])->0.failed;
            assert(rest[k] == statuses[k + 1]);
            assert forall|j: int| 0 <= j < k + 1 implies !settles(r, #[trigger] statuses[j]) by {
                if j > 0 {
                    assert(statuses[j] == rest[j - 1]);
                }
            }
            assert(first_settled_within(r, statuses, limit, k + 1));
            assert(confirmed_within(r, statuses, limit));
        }
    }
}

/// Confirming a transaction asks for its status at most `MAX_RETRIES` times,
/// and ends in success exactly when one of those replies shows the required
/// commitment and the first such reply shows no failure.
pub proof fn lemma_confirmation_outcome(
    commitment: CommitmentConfig,
    statuses: Seq<Option<SignatureStatus>>,
)
    requires
        statuses.len() >= MAX_RETRIES,
    ensures
        drive(spec_start(commitment), statuses) == ConfirmationStep::Finished(
            confirmed_within(commitment.commitment, statuses, MAX_RETRIES as int),
        ),
        drive(spec_start(commitment), statuses.take(MAX_RETRIES as int)) == drive(
            spec_start(commitment),
            statuses,
        ),
{
    let c = Confirmation { required: commitment.commitment, polls: 0 };
    let prefix = statuses.take(MAX_RETRIES as int);
    lemma_drive_from(c, statuses);
    lemma_drive_from(c, prefix);
    let r = commitment.commitment;
    let limit = MAX_RETRIES as int;
    if confirmed_within(r, statuses, limit) {
        let i = choose|i: int|
            first_settled_within(r, statuses, limit, i) && !(#[trigger] statuses[i])->0.failed;
        assert(prefix[i] == statuses[i]);
        assert forall|j: int| 0 <= j < i implies !settles(r, #[trigger] prefix[j]) by {
            assert(prefix[j] == statuses[j]);
        }
        assert(first_settled_within(r, prefix, limit, i));
    }
    if confirmed_within(r, prefix, limit) {
        let i = choose|i: int|
            first_settled_within(r, prefix, limit, i) && !(#[trigger] prefix[i])->0.failed;
        assert(prefix[i] == statuses[i]);
        assert forall|j: int| 0 <= j < i implies !settles(r, #[trigger] statuses[j]) by {
            assert(prefix[j] == statuses[j]);
        }
        assert(first_settled_within(r, statuses, limit, i));
    }
}

} // verus!
