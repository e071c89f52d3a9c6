use relay_verifier::block::{
    BlockHeader, ChainSnapshot, CommittedTransaction, EntrypointKind, RelayBlockMessage,
    TransactionEntrypoint,
};
use relay_verifier::digest::Digest;
use relay_verifier::keys::{PublicKey, Signature, SignatureSet, ValidatorSet};
use relay_verifier::merkle::{MerklePath, ProofStep, Side, MAX_VERIFY_DEPTH};
use relay_verifier::pipeline::{
    check_block_height, process_transactions, validate_block_signatures, validate_prev_block_hash,
    verify_block, Outcome, Sequencing, ValidationError,
};
use relay_verifier::quorum::QuorumError;

/// Stand-in for the pairwise hash: three times the left plus five times the
/// right plus one, byte by byte.
fn pair(left: &Digest, right: &Digest) -> Digest {
    let mut bytes = [0u8; 32];
    for i in 0..32 {
        bytes[i] = left.bytes[i]
            .wrapping_mul(3)
            .wrapping_add(right.bytes[i].wrapping_mul(5))
            .wrapping_add(1);
    }
    Digest::new(bytes)
}

/// Stand-in for the signature check: the signature is the key followed by
/// the first byte of the digest.
fn signed(key: &PublicKey, digest: &Digest, signature: &Signature) -> bool {
    let mut expected = key.bytes.clone();
    expected.push(digest.bytes[0]);
    signature.bytes == expected
}

fn digest(byte: u8) -> Digest {
    Digest::new([byte; 32])
}

fn validators(names: &[u8]) -> ValidatorSet {
    let mut set = ValidatorSet::new();
    for name in names {
        set.insert(PublicKey { bytes: vec![*name] });
    }
    set
}

fn signatures(signers: &[u8], over: &Digest) -> SignatureSet {
    let mut set = SignatureSet::new();
    for name in signers {
        set.insert(Signature { bytes: vec![*name, over.bytes[0]] });
    }
    set
}

fn snapshot_at(height: u64, hash: u8) -> ChainSnapshot {
    ChainSnapshot {
        validators: validators(&[1, 2, 3, 4]),
        last_block: Some(BlockHeader {
            height,
            hash: digest(hash),
            prev_hash: Some(digest(hash.wrapping_sub(1))),
            merkle_root: None,
        }),
    }
}

fn claim(header: BlockHeader, signers: &[u8], transactions: Vec<CommittedTransaction>) -> RelayBlockMessage {
    RelayBlockMessage {
        header,
        signatures: signatures(signers, &header.hash),
        interesting_transactions: transactions,
    }
}

fn first_block() -> BlockHeader {
    BlockHeader { height: 1, hash: digest(0xa1), prev_hash: None, merkle_root: None }
}

/// A transaction with leaf 10 in the four-leaf tree over 10, 20, 30, 40,
/// whose root under `pair` is 57.
fn proved_transaction(block: u8) -> CommittedTransaction {
    CommittedTransaction {
        entrypoint_digest: digest(10),
        entrypoint_proof: MerklePath {
            steps: vec![
                ProofStep { sibling: digest(20), side: Side::Right },
                ProofStep { sibling: digest(35), side: Side::Right },
            ],
        },
        containing_block_hash: digest(block),
        payload: TransactionEntrypoint { kind: EntrypointKind::External, body: vec![1, 2, 3] },
    }
}

fn unproved_transaction(block: u8) -> CommittedTransaction {
    let mut transaction = proved_transaction(block);
    transaction.entrypoint_digest = digest(11);
    transaction
}

fn sixth_block(root: Option<Digest>) -> BlockHeader {
    BlockHeader { height: 6, hash: digest(0xb6), prev_hash: Some(digest(0xb5)), merkle_root: root }
}

fn run(chain: &ChainSnapshot, message: &RelayBlockMessage) -> Outcome {
    verify_block(chain, message, MAX_VERIFY_DEPTH, &signed, &pair)
}

fn rejected_with(outcome: Outcome) -> ValidationError {
    match outcome {
        Outcome::Rejected(error) => error,
        other => panic!("expected a rejection, got {:?}", other),
    }
}

fn accepted(outcome: Outcome) -> ChainSnapshot {
    match outcome {
        Outcome::Accepted(next) => next,
        other => panic!("expected acceptance, got {:?}", other),
    }
}

#[test]
fn first_block_with_three_of_four_signatures_is_accepted() {
    let genesis = ChainSnapshot::genesis(validators(&[1, 2, 3, 4]));
    let message = claim(first_block(), &[1, 2, 3], vec![]);
    let next = accepted(run(&genesis, &message));
    assert_eq!(next.last_block, Some(first_block()));
    assert_eq!(next.validators.len(), 4);
    for name in [1u8, 2, 3, 4] {
        assert!(next.validators.contains(&PublicKey { bytes: vec![name] }));
    }
    assert!(genesis.last_block.is_none());
}

#[test]
fn first_block_with_one_signature_is_rejected() {
    let genesis = ChainSnapshot::genesis(validators(&[1, 2, 3, 4]));
    let message = claim(first_block(), &[2], vec![]);
    assert_eq!(
        rejected_with(run(&genesis, &message)),
        ValidationError::Quorum(QuorumError::InsufficientQuorum { recognized: 1, required: 2 })
    );
}

#[test]
fn block_at_the_height_of_the_tip_is_stale() {
    let chain = snapshot_at(5, 0xb5);
    let again = BlockHeader {
        height: 5,
        hash: digest(0xb5),
        prev_hash: Some(digest(0xb4)),
        merkle_root: None,
    };
    assert!(matches!(run(&chain, &claim(again, &[1, 2, 3], vec![])), Outcome::Stale));
    // Nothing else of the claim is looked at.
    let garbage = BlockHeader { height: 5, hash: digest(0), prev_hash: None, merkle_root: None };
    assert!(matches!(
        run(&chain, &claim(garbage, &[], vec![proved_transaction(9)])),
        Outcome::Stale
    ));
}

#[test]
fn transaction_of_another_block_is_rejected() {
    let chain = snapshot_at(5, 0xb5);
    let header = sixth_block(Some(digest(57)));
    // The proof itself is good, and so are height, linkage and signatures.
    let fine = claim(header, &[1, 2, 3, 4], vec![proved_transaction(0xb6)]);
    assert!(matches!(run(&chain, &fine), Outcome::Accepted(_)));
    let message = claim(header, &[1, 2, 3, 4], vec![proved_transaction(0xb7)]);
    assert_eq!(rejected_with(run(&chain, &message)), ValidationError::TransactionBlockMismatch);
}

#[test]
fn height_that_skips_or_goes_back_is_rejected() {
    let chain = snapshot_at(5, 0xb5);
    for height in [0u64, 1, 3, 4, 7, 8, 100, u64::MAX] {
        let header = BlockHeader {
            height,
            hash: digest(0xb6),
            prev_hash: Some(digest(0xb5)),
            merkle_root: None,
        };
        let message = claim(header, &[1, 2, 3, 4], vec![]);
        assert_eq!(rejected_with(run(&chain, &message)), ValidationError::HeightMismatch);
        assert_eq!(check_block_height(&chain, &message), Err(ValidationError::HeightMismatch));
    }
    assert_eq!(chain.last_block.unwrap().height, 5);
}

#[test]
fn height_check_tells_duplicate_from_successor() {
    let chain = snapshot_at(5, 0xb5);
    let genesis = ChainSnapshot::genesis(validators(&[1]));
    let at = |height: u64| {
        claim(
            BlockHeader { height, hash: digest(1), prev_hash: None, merkle_root: None },
            &[],
            vec![],
        )
    };
    assert_eq!(check_block_height(&chain, &at(5)), Ok(Sequencing::Duplicate));
    assert_eq!(check_block_height(&chain, &at(6)), Ok(Sequencing::Successor));
    assert_eq!(check_block_height(&genesis, &at(0)), Ok(Sequencing::Duplicate));
    assert_eq!(check_block_height(&genesis, &at(1)), Ok(Sequencing::Successor));
    assert_eq!(check_block_height(&genesis, &at(2)), Err(ValidationError::HeightMismatch));
}

#[test]
fn tip_at_the_largest_height_has_no_successor() {
    let chain = snapshot_at(u64::MAX, 0xb5);
    let at = |height: u64| {
        claim(
            BlockHeader { height, hash: digest(1), prev_hash: Some(digest(0xb5)), merkle_root: None },
            &[1, 2, 3],
            vec![],
        )
    };
    assert_eq!(check_block_height(&chain, &at(u64::MAX)), Ok(Sequencing::Duplicate));
    assert_eq!(check_block_height(&chain, &at(0)), Err(ValidationError::HeightMismatch));
    assert_eq!(check_block_height(&chain, &at(u64::MAX - 1)), Err(ValidationError::HeightMismatch));
}

#[test]
fn block_that_does_not_name_the_tip_is_rejected() {
    let chain = snapshot_at(5, 0xb5);
    let mut header = sixth_block(None);
    header.prev_hash = Some(digest(0xb4));
    let message = claim(header, &[1, 2, 3, 4], vec![]);
    assert_eq!(rejected_with(run(&chain, &message)), ValidationError::ChainLinkageBroken);
    assert_eq!(validate_prev_block_hash(&chain, &message), Err(ValidationError::ChainLinkageBroken));
    header.prev_hash = None;
    let message = claim(header, &[1, 2, 3, 4], vec![]);
    assert_eq!(rejected_with(run(&chain, &message)), ValidationError::ChainLinkageBroken);
    header.prev_hash = Some(digest(0xb5));
    let message = claim(header, &[1, 2, 3, 4], vec![]);
    assert_eq!(validate_prev_block_hash(&chain, &message), Ok(()));
    assert!(matches!(run(&chain, &message), Outcome::Accepted(_)));
}

#[test]
fn first_block_that_names_a_predecessor_is_rejected() {
    let genesis = ChainSnapshot::genesis(validators(&[1, 2, 3, 4]));
    let mut header = first_block();
    header.prev_hash = Some(digest(0));
    let message = claim(header, &[1, 2, 3, 4], vec![]);
    assert_eq!(rejected_with(run(&genesis, &message)), ValidationError::ChainLinkageBroken);
}

#[test]
fn claim_without_signatures_is_rejected() {
    let chain = snapshot_at(5, 0xb5);
    let message = claim(sixth_block(None), &[], vec![]);
    assert_eq!(
        rejected_with(run(&chain, &message)),
        ValidationError::Quorum(QuorumError::NoSignatures)
    );
    assert_eq!(
        validate_block_signatures(&chain, &message, &signed),
        Err(ValidationError::Quorum(QuorumError::NoSignatures))
    );
}

#[test]
fn signatures_over_another_header_do_not_count() {
    let chain = snapshot_at(5, 0xb5);
    let mut message = claim(sixth_block(None), &[], vec![]);
    message.signatures = signatures(&[1, 2, 3, 4], &digest(0xb5));
    assert_eq!(
        rejected_with(run(&chain, &message)),
        ValidationError::Quorum(QuorumError::InsufficientQuorum { recognized: 0, required: 2 })
    );
    message.signatures = signatures(&[1, 2], &digest(0xb6));
    assert_eq!(validate_block_signatures(&chain, &message, &signed), Ok(()));
}

#[test]
fn the_checks_run_in_order() {
    let chain = snapshot_at(5, 0xb5);
    // Everything is wrong: the height decides.
    let mut header = BlockHeader { height: 9, hash: digest(0xb6), prev_hash: None, merkle_root: None };
    let message = claim(header, &[], vec![proved_transaction(0)]);
    assert_eq!(rejected_with(run(&chain, &message)), ValidationError::HeightMismatch);
    // Height right: the linkage decides.
    header.height = 6;
    let message = claim(header, &[], vec![proved_transaction(0)]);
    assert_eq!(rejected_with(run(&chain, &message)), ValidationError::ChainLinkageBroken);
    // Linkage right: the signatures decide.
    header.prev_hash = Some(digest(0xb5));
    let message = claim(header, &[], vec![proved_transaction(0)]);
    assert_eq!(
        rejected_with(run(&chain, &message)),
        ValidationError::Quorum(QuorumError::NoSignatures)
    );
    // Signatures right: the transactions decide.
    let message = claim(header, &[1, 2], vec![proved_transaction(0)]);
    assert_eq!(rejected_with(run(&chain, &message)), ValidationError::EmptyBlockWithTransactions);
}

#[test]
fn transactions_need_a_merkle_root() {
    let with_transactions = claim(sixth_block(None), &[1, 2], vec![proved_transaction(0xb6)]);
    assert_eq!(
        process_transactions(&with_transactions, MAX_VERIFY_DEPTH, &pair),
        Err(ValidationError::EmptyBlockWithTransactions)
    );
    let without = claim(sixth_block(None), &[1, 2], vec![]);
    assert_eq!(process_transactions(&without, MAX_VERIFY_DEPTH, &pair), Ok(()));
    let chain = snapshot_at(5, 0xb5);
    assert!(matches!(run(&chain, &without), Outcome::Accepted(_)));
}

#[test]
fn unproved_transaction_is_rejected() {
    let chain = snapshot_at(5, 0xb5);
    let header = sixth_block(Some(digest(57)));
    let message = claim(header, &[1, 2, 3], vec![proved_transaction(0xb6), unproved_transaction(0xb6)]);
    assert_eq!(rejected_with(run(&chain, &message)), ValidationError::UnprovenTransaction);
    let wrong_root = claim(sixth_block(Some(digest(58))), &[1, 2, 3], vec![proved_transaction(0xb6)]);
    assert_eq!(rejected_with(run(&chain, &wrong_root)), ValidationError::UnprovenTransaction);
}

#[test]
fn the_first_faulty_transaction_decides_the_error() {
    let header = sixth_block(Some(digest(57)));
    let unproven_first =
        claim(header, &[1, 2], vec![proved_transaction(0xb6), unproved_transaction(0xb6), proved_transaction(0)]);
    assert_eq!(
        process_transactions(&unproven_first, MAX_VERIFY_DEPTH, &pair),
        Err(ValidationError::UnprovenTransaction)
    );
    let mismatch_first =
        claim(header, &[1, 2], vec![proved_transaction(0), unproved_transaction(0xb6)]);
    assert_eq!(
        process_transactions(&mismatch_first, MAX_VERIFY_DEPTH, &pair),
        Err(ValidationError::TransactionBlockMismatch)
    );
    // Both faults in one transaction: the block is looked at before the proof.
    let both = claim(header, &[1, 2], vec![unproved_transaction(0)]);
    assert_eq!(
        process_transactions(&both, MAX_VERIFY_DEPTH, &pair),
        Err(ValidationError::TransactionBlockMismatch)
    );
}

#[test]
fn proof_deeper_than_the_bound_is_unproven() {
    let header = sixth_block(Some(digest(57)));
    let message = claim(header, &[1, 2], vec![proved_transaction(0xb6)]);
    assert_eq!(process_transactions(&message, 2, &pair), Ok(()));
    assert_eq!(process_transactions(&message, 1, &pair), Err(ValidationError::UnprovenTransaction));
}

#[test]
fn transaction_whose_digest_is_the_root_needs_no_steps() {
    let header = sixth_block(Some(digest(10)));
    let mut transaction = proved_transaction(0xb6);
    transaction.entrypoint_proof = MerklePath { steps: vec![] };
    let message = claim(header, &[1, 2], vec![transaction]);
    assert_eq!(process_transactions(&message, MAX_VERIFY_DEPTH, &pair), Ok(()));
    assert_eq!(process_transactions(&message, 0, &pair), Ok(()));
}

#[test]
fn accepted_claim_is_stale_when_it_comes_again() {
    let chain = snapshot_at(5, 0xb5);
    let message = claim(sixth_block(Some(digest(57))), &[1, 2, 3], vec![proved_transaction(0xb6)]);
    let next = accepted(run(&chain, &message));
    assert!(matches!(run(&next, &message), Outcome::Stale));
    assert_eq!(next.last_block, Some(sixth_block(Some(digest(57)))));
}

#[test]
fn blocks_are_accepted_one_after_another() {
    let genesis = ChainSnapshot::genesis(validators(&[1, 2, 3]));
    let first = claim(first_block(), &[1, 3], vec![]);
    let after_first = accepted(run(&genesis, &first));
    let second_header = BlockHeader {
        height: 2,
        hash: digest(0xa2),
        prev_hash: Some(digest(0xa1)),
        merkle_root: None,
    };
    let second = claim(second_header, &[2, 3], vec![]);
    // The second block does not fit the genesis snapshot, only the one after the first.
    assert_eq!(rejected_with(run(&genesis, &second)), ValidationError::HeightMismatch);
    let after_second = accepted(run(&after_first, &second));
    assert_eq!(after_second.last_block, Some(second_header));
    assert_eq!(after_second.validators.len(), 3);
    assert!(matches!(run(&after_second, &first), Outcome::Rejected(ValidationError::HeightMismatch)));
}

#[test]
fn snapshot_reports_its_tip() {
    let genesis = ChainSnapshot::genesis(validators(&[1]));
    assert_eq!(genesis.tip_height(), 0);
    assert_eq!(genesis.tip_hash(), None);
    let chain = snapshot_at(5, 0xb5);
    assert_eq!(chain.tip_height(), 5);
    assert_eq!(chain.tip_hash(), Some(digest(0xb5)));
    let copy = chain.clone();
    assert_eq!(copy.last_block, chain.last_block);
    assert_eq!(copy.validators.len(), 4);
}

#[test]
fn well_formed_headers_start_at_height_one_without_predecessor() {
    let header = |height: u64, prev: Option<u8>| BlockHeader {
        height,
        hash: digest(1),
        prev_hash: prev.map(digest),
        merkle_root: None,
    };
    assert!(header(1, None).is_well_formed());
    assert!(header(2, Some(7)).is_well_formed());
    assert!(header(u64::MAX, Some(7)).is_well_formed());
    assert!(!header(0, None).is_well_formed());
    assert!(!header(0, Some(7)).is_well_formed());
    assert!(!header(1, Some(7)).is_well_formed());
    assert!(!header(2, None).is_well_formed());
}

#[test]
fn accepted_snapshots_stay_well_formed() {
    let genesis = ChainSnapshot::genesis(validators(&[1, 2, 3]));
    assert!(genesis.is_well_formed());
    let after_first = accepted(run(&genesis, &claim(first_block(), &[1, 3], vec![])));
    assert!(after_first.is_well_formed());
    let chain = snapshot_at(5, 0xb5);
    assert!(chain.is_well_formed());
    let next = accepted(run(&chain, &claim(sixth_block(None), &[1, 2], vec![])));
    assert!(next.is_well_formed());
    let odd = ChainSnapshot {
        validators: validators(&[1]),
        last_block: Some(BlockHeader { height: 0, hash: digest(0), prev_hash: None, merkle_root: None }),
    };
    assert!(!odd.is_well_formed());
}
