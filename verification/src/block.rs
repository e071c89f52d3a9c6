//! Block headers, the trusted snapshot of a chain, and the claims that a
//! relay makes about its next block.

use vstd::prelude::*;
use crate::digest::Digest;
use crate::keys::{SignatureSet, ValidatorSet};
use crate::merkle::{MerklePath, ProofStep};

verus! {

/// The header of one block of the watched chain.
#[derive(Clone, Copy, Debug, PartialEq, Eq)]
pub struct BlockHeader {
    /// The place of the block in the chain; the first block has height one.
    pub height: u64,
    /// The digest of the header. It is computed from the encoded header by
    /// whoever builds this value, and never taken from a relay's word.
    pub hash: Digest,
    /// The digest of the header before it; the first block has none.
    pub prev_hash: Option<Digest>,
    /// The root of the tree over the transactions of the block; a block
    /// without transactions has none.
    pub merkle_root: Option<Digest>,
}

impl BlockHeader {
    /// A header as the chain produces it: the height is at least one, and
    /// the first block, and no other, is without a predecessor.
    pub open spec fn well_formed(&self) -> bool {
        &&& self.height >= 1
        &&& self.prev_hash is None <==> self.height == 1
    }

    /// Whether this is a header as the chain produces it.
    pub fn is_well_formed(&self) -> (ok: bool)
        ensures
            ok == self.well_formed(),
    {
        self.height >= 1 && (self.prev_hash.is_none() == (self.height == 1))
    }
}

/// What is trusted of a chain: its validators, and the last block that
/// was accepted, if any.
#[derive(Debug)]
pub struct ChainSnapshot {
    pub validators: ValidatorSet,
    pub last_block: Option<BlockHeader>,
}

/// A snapshot as specifications see it.
pub struct SnapshotView {
    pub validators: Set<Seq<u8>>,
    pub last_block: Option<BlockHeader>,
}

impl View for ChainSnapshot {
    type V = SnapshotView;

    open spec fn view(&self) -> SnapshotView {
        SnapshotView { validators: self.validators@, last_block: self.last_block }
    }
}

impl SnapshotView {
    /// The height of the last accepted block, or zero before the first.
    pub open spec fn tip_height(self) -> nat {
        match self.last_block {
            Some(block) => block.height as nat,
            None => 0,
        }
    }

    /// The digest of the last accepted block.
    pub open spec fn tip_hash(self) -> Option<Digest> {
        match self.last_block {
            Some(block) => Some(block.hash),
            None => None,
        }
    }

    /// The last accepted block, if there is one, is a header as the chain
    /// produces it.
    pub open spec fn well_formed(self) -> bool {
        self.last_block matches Some(block) ==> block.well_formed()
    }
}

impl ChainSnapshot {
    /// The snapshot of a chain of which no block has been accepted yet.
    pub fn genesis(validators: ValidatorSet) -> (snapshot: ChainSnapshot)
        ensures
            snapshot@ == (SnapshotView { validators: validators@, last_block: None }),
            snapshot@.well_formed(),
    {
        ChainSnapshot { validators, last_block: None }
    }

    /// Whether the last accepted block, if there is one, is a header as the
    /// chain produces it.
    pub fn is_well_formed(&self) -> (ok: bool)
        ensures
            ok == self@.well_formed(),
    {
        match &self.last_block {
            Some(block) => block.is_well_formed(),
            None => true,
        }
    }

    /// The height of the last accepted block, or zero before the first.
    pub fn tip_height(&self) -> (height: u64)
        ensures
            height == self@.tip_height(),
    {
        match &self.last_block {
            Some(block) => block.height,
            None => 0,
        }
    }

    /// The digest of the last accepted block.
    pub fn tip_hash(&self) -> (hash: Option<Digest>)
        ensures
            hash == self@.tip_hash(),
    {
        match &self.last_block {
            Some(block) => Some(block.hash),
            None => None,
        }
    }
}

impl Clone for ChainSnapshot {
    fn clone(&self) -> (copy: ChainSnapshot)
        ensures
            copy@ == self@,
    {
        ChainSnapshot { validators: self.validators.clone(), last_block: self.last_block }
    }
}

/// The kind of entrypoint that a transaction came in by.
#[derive(Clone, Copy, Debug, PartialEq, Eq, Structural)]
pub enum EntrypointKind {
    /// Submitted from outside the chain.
    External,
    /// Started by a time trigger of the chain.
    Time,
}

/// What a transaction carries: the kind of its entrypoint and the encoded
/// entrypoint itself. This library only proves that the transaction is part
/// of a block; what applying it means is left to whoever handles the kind.
#[derive(Debug)]
pub struct TransactionEntrypoint {
    pub kind: EntrypointKind,
    pub body: Vec<u8>,
}

/// A transaction that the relay says is part of the claimed block.
#[derive(Debug)]
pub struct CommittedTransaction {
    /// The digest of the entrypoint: the leaf that the proof starts from.
    pub entrypoint_digest: Digest,
    /// The proof that the entrypoint is under the Merkle root of the block.
    pub entrypoint_proof: MerklePath,
    /// The digest of the block that the transaction is said to be part of.
    pub containing_block_hash: Digest,
    pub payload: TransactionEntrypoint,
}

/// A transaction as specifications see it.
pub struct TransactionView {
    pub entrypoint_digest: Digest,
    pub entrypoint_proof: Seq<ProofStep>,
    pub containing_block_hash: Digest,
    pub payload_kind: EntrypointKind,
    pub payload_body: Seq<u8>,
}

impl View for CommittedTransaction {
    type V = TransactionView;

    open spec fn view(&self) -> TransactionView {
        TransactionView {
            entrypoint_digest: self.entrypoint_digest,
            entrypoint_proof: self.entrypoint_proof@,
            containing_block_hash: self.containing_block_hash,
            payload_kind: self.payload.kind,
            payload_body: self.payload.body@,
        }
    }
}

/// The views of a list of transactions, in the same order.
pub open spec fn transaction_views(transactions: Seq<CommittedTransaction>) -> Seq<TransactionView> {
    Seq::new(transactions.len(), |i: int| transactions[i]@)
}

/// The claim of a relay: the header of a new block, signatures over it, and
/// those of its transactions that the relay wants looked at. Nothing in it
/// is trusted.
#[derive(Debug)]
pub struct RelayBlockMessage {
    pub header: BlockHeader,
    pub signatures: SignatureSet,
    pub interesting_transactions: Vec<CommittedTransaction>,
}

/// A claim as specifications see it.
pub struct MessageView {
    pub header: BlockHeader,
    pub signatures: Set<Seq<u8>>,
    pub interesting_transactions: Seq<TransactionView>,
}

impl View for RelayBlockMessage {
    type V = MessageView;

    open spec fn view(&self) -> MessageView {
        MessageView {
            header: self.header,
            signatures: self.signatures@,
            interesting_transactions: transaction_views(self.interesting_transactions@),
        }
    }
}

} // verus!
