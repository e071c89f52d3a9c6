//! The checks that a block claim goes through, in order, and what comes
//! out of them.
//!
//! A claim is looked at against the trusted snapshot: its height has to
//! follow the last accepted block, its header has to name that block as its
//! predecessor, enough validators have to have signed it, and each of its
//! transactions has to be proved part of it. The first check that fails
//! ends the run. The snapshot is only read: an accepted claim yields a new
//! snapshot, and everything else leaves nothing to write.

use vstd::prelude::*;
use crate::backend::{hash_of, hasher_is_function, verdict_of, verifier_is_function};
use crate::block::{
    ChainSnapshot,
    MessageView,
    RelayBlockMessage,
    SnapshotView,
    TransactionView,
};
use crate::digest::{same_optional, Digest};
use crate::keys::{PublicKey, Signature};
use crate::merkle::{proves, verify};
use crate::quorum::{check, quorum_outcome, QuorumError};

verus! {

/// Why a claim is rejected.
#[derive(Clone, Copy, Debug, PartialEq, Eq, Structural)]
pub enum ValidationError {
    /// The height of the claimed block is neither that of the last
    /// accepted block nor the one after it.
    HeightMismatch,
    /// The claimed block does not name the last accepted block as its
    /// predecessor.
    ChainLinkageBroken,
    /// The signatures do not carry the claim.
    Quorum(QuorumError),
    /// Transactions are claimed for a block whose header has no Merkle
    /// root.
    EmptyBlockWithTransactions,
    /// A transaction names another block than the claimed one.
    TransactionBlockMismatch,
    /// The proof of a transaction does not lead to the Merkle root of the
    /// claimed block, or is too long.
    UnprovenTransaction,
}

/// How the height of a claim stands to the snapshot, where it fits.
#[derive(Clone, Copy, Debug, PartialEq, Eq, Structural)]
pub enum Sequencing {
    /// The claimed block is the last accepted one again.
    Duplicate,
    /// The claimed block comes right after the last accepted one.
    Successor,
}

/// How a run ends.
#[derive(Debug)]
pub enum Outcome {
    /// Every check passed; this is the snapshot to keep from now on.
    Accepted(ChainSnapshot),
    /// The claim is about the block that was accepted last: there is
    /// nothing to do.
    Stale,
    /// A check failed.
    Rejected(ValidationError),
}

/// An outcome as specifications see it.
pub enum OutcomeView {
    Accepted(SnapshotView),
    Stale,
    Rejected(ValidationError),
}

impl View for Outcome {
    type V = OutcomeView;

    open spec fn view(&self) -> OutcomeView {
        match self {
            Outcome::Accepted(snapshot) => OutcomeView::Accepted(snapshot@),
            Outcome::Stale => OutcomeView::Stale,
            Outcome::Rejected(error) => OutcomeView::Rejected(*error),
        }
    }
}

/// The height check: the same height as the tip is a duplicate, the next
/// height is a successor, anything else does not fit.
pub open spec fn height_outcome(snapshot: SnapshotView, message: MessageView) -> Result<
    Sequencing,
    ValidationError,
> {
    if message.header.height == snapshot.tip_height() {
        Ok(Sequencing::Duplicate)
    } else if message.header.height == snapshot.tip_height() + 1 {
        Ok(Sequencing::Successor)
    } else {
        Err(ValidationError::HeightMismatch)
    }
}

/// The linkage check: the claimed header names the tip as its predecessor,
/// or no predecessor where there is no tip.
pub open spec fn linkage_outcome(snapshot: SnapshotView, message: MessageView) -> Result<
    (),
    ValidationError,
> {
    if message.header.prev_hash == snapshot.tip_hash() {
        Ok(())
    } else {
        Err(ValidationError::ChainLinkageBroken)
    }
}

/// The quorum check: the quorum rule, applied to the validators of the
/// snapshot, the digest of the claimed header and the signatures of the
/// claim.
pub open spec fn signatures_outcome(
    verdict: spec_fn(Seq<u8>, Digest, Seq<u8>) -> bool,
    snapshot: SnapshotView,
    message: MessageView,
) -> Result<(), ValidationError> {
    match quorum_outcome(verdict, snapshot.validators, message.header.hash, message.signatures) {
        Ok(()) => Ok(()),
        Err(error) => Err(ValidationError::Quorum(error)),
    }
}

/// What is wrong with one transaction, if anything: it names another block
/// than `block_hash`, or, failing that, its proof is not accepted for
/// `root`.
pub open spec fn transaction_fault(
    hash: spec_fn(Digest, Digest) -> Digest,
    transaction: TransactionView,
    block_hash: Digest,
    root: Digest,
    max_depth: nat,
) -> Option<ValidationError> {
    if transaction.containing_block_hash != block_hash {
        Some(ValidationError::TransactionBlockMismatch)
    } else if !proves(
        hash,
        transaction.entrypoint_digest,
        transaction.entrypoint_proof,
        root,
        max_depth,
    ) {
        Some(ValidationError::UnprovenTransaction)
    } else {
        None
    }
}

/// The fault of the first transaction that has one.
pub open spec fn first_fault(
    hash: spec_fn(Digest, Digest) -> Digest,
    transactions: Seq<TransactionView>,
    block_hash: Digest,
    root: Digest,
    max_depth: nat,
) -> Option<ValidationError>
    decreases transactions.len(),
{
    if transactions.len() == 0 {
        None
    } else {
        match transaction_fault(hash, transactions.first(), block_hash, root, max_depth) {
            Some(error) => Some(error),
            None => first_fault(hash, transactions.drop_first(), block_hash, root, max_depth),
        }
    }
}

/// The transaction check: a claim without transactions passes; one with
/// transactions needs a Merkle root in its header, and no transaction with
/// a fault.
pub open spec fn transactions_outcome(
    hash: spec_fn(Digest, Digest) -> Digest,
    message: MessageView,
    max_depth: nat,
) -> Result<(), ValidationError> {
    if message.interesting_transactions.len() == 0 {
        Ok(())
    } else {
        match message.header.merkle_root {
            None => Err(ValidationError::EmptyBlockWithTransactions),
            Some(root) => match first_fault(
                hash,
                message.interesting_transactions,
                message.header.hash,
                root,
                max_depth,
            ) {
                Some(error) => Err(error),
                None => Ok(()),
            },
        }
    }
}

/// How a run ends: the four checks in order, the first failure deciding,
/// and on success the snapshot with the same validators and the claimed
/// header as its last block.
pub open spec fn pipeline_outcome(
    verdict: spec_fn(Seq<u8>, Digest, Seq<u8>) -> bool,
    hash: spec_fn(Digest, Digest) -> Digest,
    snapshot: SnapshotView,
    message: MessageView,
    max_depth: nat,
) -> OutcomeView {
    match height_outcome(snapshot, message) {
        Err(error) => OutcomeView::Rejected(error),
        Ok(Sequencing::Duplicate) => OutcomeView::Stale,
        Ok(Sequencing::Successor) => match linkage_outcome(snapshot, message) {
            Err(error) => OutcomeView::Rejected(error),
            Ok(()) => match signatures_outcome(verdict, snapshot, message) {
                Err(error) => OutcomeView::Rejected(error),
                Ok(()) => match transactions_outcome(hash, message, max_depth) {
                    Err(error) => OutcomeView::Rejected(error),
                    Ok(()) => OutcomeView::Accepted(
                        SnapshotView {
                            validators: snapshot.validators,
                            last_block: Some(message.header),
                        },
                    ),
                },
            },
        },
    }
}

/// Compares the height of the claimed block with the snapshot.
pub fn check_block_height(chain: &ChainSnapshot, message: &RelayBlockMessage) -> (outcome: Result<
    Sequencing,
    ValidationError,
>)
    ensures
        outcome == height_outcome(chain@, message@),
{
    let snapshot_height = chain.tip_height();
    let message_height = message.header.height;
    if snapshot_height == message_height {
        Ok(Sequencing::Duplicate)
    } else if snapshot_height < u64::MAX && snapshot_height + 1 == message_height {
        Ok(Sequencing::Successor)
    } else {
        Err(ValidationError::HeightMismatch)
    }
}

/// Checks that the claimed block names the last accepted block as its
/// predecessor.
pub fn validate_prev_block_hash(chain: &ChainSnapshot, message: &RelayBlockMessage) -> (outcome: Result<
    (),
    ValidationError,
>)
    ensures
        outcome == linkage_outcome(chain@, message@),
{
    let expected = chain.tip_hash();
    if same_optional(&message.header.prev_hash, &expected) {
        Ok(())
    } else {
        Err(ValidationError::ChainLinkageBroken)
    }
}

/// Checks the signatures of the claim against the validators of the
/// snapshot.
pub fn validate_block_signatures<V: Fn(&PublicKey, &Digest, &Signature) -> bool>(
    chain: &ChainSnapshot,
    message: &RelayBlockMessage,
    verifier: &V,
) -> (outcome: Result<(), ValidationError>)
    requires
        verifier_is_function(verifier),
    ensures
        outcome == signatures_outcome(verdict_of(verifier), chain@, message@),
{
    match check(&chain.validators, &message.header.hash, &message.signatures, verifier) {
        Ok(()) => Ok(()),
        Err(error) => Err(ValidationError::Quorum(error)),
    }
}

/// Checks that each transaction of the claim names the claimed block and is
/// proved part of it, by a proof of at most `max_depth` steps.
pub fn process_transactions<H: Fn(&Digest, &Digest) -> Digest>(
    message: &RelayBlockMessage,
    max_depth: usize,
    hasher: &H,
) -> (outcome: Result<(), ValidationError>)
    requires
        hasher_is_function(hasher),
    ensures
        outcome == transactions_outcome(hash_of(hasher), message@, max_depth as nat),
{
    let count = message.interesting_transactions.len();
    if count == 0 {
        return Ok(());
    }
    let root = match message.header.merkle_root {
        Some(root) => root,
        None => {
            return Err(ValidationError::EmptyBlockWithTransactions);
        },
    };
    let block_hash = message.header.hash;
    let ghost all = message@.interesting_transactions;
    let mut at: usize = 0;
    assert(all.skip(0) == all);
    while at < count
        invariant
            at <= count,
            0 < count == message.interesting_transactions.len(),
            all == message@.interesting_transactions,
            message.header.merkle_root == Some(root),
            message.header.hash == block_hash,
            hasher_is_function(hasher),
            first_fault(hash_of(hasher), all, block_hash, root, max_depth as nat) == first_fault(
                hash_of(hasher),
                all.skip(at as int),
                block_hash,
                root,
                max_depth as nat,
            ),
        decreases count - at,
    {
        let transaction = &message.interesting_transactions[at];
        proof {
            assert(all.skip(at as int).drop_first() == all.skip(at + 1));
        }
        if transaction.containing_block_hash != block_hash {
            return Err(ValidationError::TransactionBlockMismatch);
        }
        if !verify(
            &transaction.entrypoint_digest,
            &transaction.entrypoint_proof,
            &root,
            max_depth,
            hasher,
        ) {
            return Err(ValidationError::UnprovenTransaction);
        }
        at += 1;
    }
    Ok(())
}

/// Runs the four checks on a claim and says how the run ends.
///
/// The snapshot is not changed. Where the claim is accepted, the outcome
/// holds the snapshot that replaces it: the same validators, and the
/// claimed header as the last block.
pub fn verify_block<V: Fn(&PublicKey, &Digest, &Signature) -> bool, H: Fn(&Digest, &Digest) -> Digest>(
    chain: &ChainSnapshot,
    message: &RelayBlockMessage,
    max_depth: usize,
    verifier: &V,
    hasher: &H,
) -> (outcome: Outcome)
    requires
        verifier_is_function(verifier),
        hasher_is_function(hasher),
    ensures
        outcome@ == pipeline_outcome(
            verdict_of(verifier),
            hash_of(hasher),
            chain@,
            message@,
            max_depth as nat,
        ),
        message@.header.height != chain@.tip_height() && message@.header.height
            != chain@.tip_height() + 1 ==> outcome@ == OutcomeView::Rejected(
            ValidationError::HeightMismatch,
        ),
        chain@.well_formed() ==> (outcome@ matches OutcomeView::Accepted(next)
            ==> next.well_formed()),
{
    match check_block_height(chain, message) {
        Err(error) => {
            return Outcome::Rejected(error);
        },
        Ok(Sequencing::Duplicate) => {
            return Outcome::Stale;
        },
        Ok(Sequencing::Successor) => {},
    }
    if let Err(error) = validate_prev_block_hash(chain, message) {
        return Outcome::Rejected(error);
    }
    if let Err(error) = validate_block_signatures(chain, message, verifier) {
        return Outcome::Rejected(error);
    }
    if let Err(error) = process_transactions(message, max_depth, hasher) {
        return Outcome::Rejected(error);
    }
    Outcome::Accepted(
        ChainSnapshot { validators: chain.validators.clone(), last_block: Some(message.header) },
    )
}

/// None of the first `count` transactions has a fault.
pub open spec fn faultless_before(
    hash: spec_fn(Digest, Digest) -> Digest,
    transactions: Seq<TransactionView>,
    block_hash: Digest,
    root: Digest,
    max_depth: nat,
    count: int,
) -> bool {
    forall|i: int|
        0 <= i < count ==> transaction_fault(
            hash,
            #[trigger] transactions[i],
            block_hash,
            root,
            max_depth,
        ) is None
}

/// The transaction check passes the list exactly when no transaction has a
/// fault; otherwise it reports the fault of a transaction before which
/// every transaction is without fault.
pub proof fn lemma_first_fault_is_the_first(
    hash: spec_fn(Digest, Digest) -> Digest,
    transactions: Seq<TransactionView>,
    block_hash: Digest,
    root: Digest,
    max_depth: nat,
)
    ensures
        first_fault(hash, transactions, block_hash, root, max_depth) is None <==> faultless_before(
            hash,
            transactions,
            block_hash,
            root,
            max_depth,
            transactions.len() as int,
        ),
        first_fault(hash, transactions, block_hash, root, max_depth) is Some ==> exists|at: int|
            0 <= at < transactions.len() && #[trigger] faultless_before(
                hash,
                transactions,
                block_hash,
                root,
                max_depth,
                at,
            ) && transaction_fault(hash, transactions[at], block_hash, root, max_depth)
                == first_fault(hash, transactions, block_hash, root, max_depth),
    decreases transactions.len(),
{
    if transactions.len() > 0 {
        let rest = transactions.drop_first();
        lemma_first_fault_is_the_first(hash, rest, block_hash, root, max_depth);
        assert forall|i: int| 0 <= i < rest.len() implies rest[i] == transactions[i + 1] by {}
        if transaction_fault(hash, transactions.first(), block_hash, root, max_depth) is None {
            if first_fault(hash, rest, block_hash, root, max_depth) is Some {
                let below = choose|at: int|
                    0 <= at < rest.len() && #[trigger] faultless_before(
                        hash,
                        rest,
                        block_hash,
                        root,
                        max_depth,
                        at,
                    ) && transaction_fault(hash, rest[at], block_hash, root, max_depth)
                        == first_fault(hash, rest, block_hash, root, max_depth);
                assert(faultless_before(hash, transactions, block_hash, root, max_depth, below + 1))
                    by {
                    assert forall|i: int| 0 <= i < below + 1 implies transaction_fault(
                        hash,
                        #[trigger] transactions[i],
                        block_hash,
                        root,
                        max_depth,
                    ) is None by {
                        if i > 0 {
                            assert(transactions[i] == rest[i - 1]);
                        }
                    }
                }
            } else {
                assert forall|i: int| 0 <= i < transactions.len() implies transaction_fault(
                    hash,
                    #[trigger] transactions[i],
                    block_hash,
                    root,
                    max_depth,
                ) is None by {
                    if i > 0 {
                        assert(transactions[i] == rest[i - 1]);
                    }
                }
            }
        } else {
            assert(faultless_before(hash, transactions, block_hash, root, max_depth, 0));
        }
    }
}

/// A claim whose height is neither that of the last accepted block nor the
/// one after it is rejected for its height, whatever else it holds.
pub proof fn law_height_gap_is_rejected(
    verdict: spec_fn(Seq<u8>, Digest, Seq<u8>) -> bool,
    hash: spec_fn(Digest, Digest) -> Digest,
    snapshot: SnapshotView,
    message: MessageView,
    max_depth: nat,
)
    requires
        message.header.height != snapshot.tip_height(),
        message.header.height != snapshot.tip_height() + 1,
    ensures
        pipeline_outcome(verdict, hash, snapshot, message, max_depth) == OutcomeView::Rejected(
            ValidationError::HeightMismatch,
        ),
{
}

/// A claim that was accepted is stale when it comes again: run against the
/// snapshot that its acceptance produced, it ends with nothing to do.
pub proof fn law_accepted_claim_is_stale_afterwards(
    verdict: spec_fn(Seq<u8>, Digest, Seq<u8>) -> bool,
    hash: spec_fn(Digest, Digest) -> Digest,
    snapshot: SnapshotView,
    message: MessageView,
    max_depth: nat,
    next: SnapshotView,
)
    requires
        pipeline_outcome(verdict, hash, snapshot, message, max_depth) == OutcomeView::Accepted(next),
    ensures
        pipeline_outcome(verdict, hash, next, message, max_depth) == OutcomeView::Stale,
{
}

/// What a claim has to meet to be accepted: its height follows the tip, its
/// header names the tip, its signatures carry it, and its transactions are
/// proved.
pub open spec fn acceptable(
    verdict: spec_fn(Seq<u8>, Digest, Seq<u8>) -> bool,
    hash: spec_fn(Digest, Digest) -> Digest,
    snapshot: SnapshotView,
    message: MessageView,
    max_depth: nat,
) -> bool {
    &&& message.header.height == snapshot.tip_height() + 1
    &&& message.header.prev_hash == snapshot.tip_hash()
    &&& quorum_outcome(verdict, snapshot.validators, message.header.hash, message.signatures) is Ok
    &&& transactions_outcome(hash, message, max_depth) is Ok
}

/// A claim is accepted exactly when it is [`acceptable`]; the new snapshot
/// then has the validators of the old one, and the claimed header as its
/// last block.
pub proof fn law_acceptance(
    verdict: spec_fn(Seq<u8>, Digest, Seq<u8>) -> bool,
    hash: spec_fn(Digest, Digest) -> Digest,
    snapshot: SnapshotView,
    message: MessageView,
    max_depth: nat,
)
    ensures
        pipeline_outcome(verdict, hash, snapshot, message, max_depth) is Accepted <==> acceptable(
            verdict,
            hash,
            snapshot,
            message,
            max_depth,
        ),
        pipeline_outcome(verdict, hash, snapshot, message, max_depth) matches OutcomeView::Accepted(
            next,
        ) ==> next.validators == snapshot.validators && next.last_block == Some(message.header),
{
}

/// Every transaction of an accepted claim names the claimed block and is
/// proved under the Merkle root of its header.
pub proof fn law_accepted_transactions_are_proved(
    verdict: spec_fn(Seq<u8>, Digest, Seq<u8>) -> bool,
    hash: spec_fn(Digest, Digest) -> Digest,
    snapshot: SnapshotView,
    message: MessageView,
    max_depth: nat,
    at: int,
)
    requires
        pipeline_outcome(verdict, hash, snapshot, message, max_depth) is Accepted,
        0 <= at < message.interesting_transactions.len(),
    ensures
        message.header.merkle_root is Some,
        message.interesting_transactions[at].containing_block_hash == message.header.hash,
        proves(
            hash,
            message.interesting_transactions[at].entrypoint_digest,
            message.interesting_transactions[at].entrypoint_proof,
            message.header.merkle_root->0,
            max_depth,
        ),
{
    let root = message.header.merkle_root->0;
    lemma_first_fault_is_the_first(
        hash,
        message.interesting_transactions,
        message.header.hash,
        root,
        max_depth,
    );
    assert(transaction_fault(
        hash,
        message.interesting_transactions[at],
        message.header.hash,
        root,
        max_depth,
    ) is None);
}

} // verus!
