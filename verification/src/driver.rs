//! What one invocation decides.
//!
//! An invocation is started by an event, reads the snapshot and the pending
//! claim from where they are kept, and writes the snapshot back if the
//! claim was accepted. Reading and writing are the caller's part. This
//! module holds the two decisions in between: whether the event may start
//! an invocation at all, which has to be settled before anything is read,
//! and what is to be done once snapshot and claim are at hand.

use vstd::prelude::*;
use crate::backend::{hash_of, hasher_is_function, verdict_of, verifier_is_function};
use crate::block::{ChainSnapshot, MessageView, RelayBlockMessage, SnapshotView};
use crate::digest::Digest;
use crate::keys::{PublicKey, Signature};
use crate::pipeline::{pipeline_outcome, verify_block, Outcome, OutcomeView, ValidationError};

verus! {

/// The kind of event that started an invocation.
#[derive(Clone, Copy, Debug, PartialEq, Eq, Structural)]
pub enum EventKind {
    /// The scheduled tick that invocations are meant for.
    Time,
    /// Any other event.
    Other,
}

/// Why an invocation does not start.
#[derive(Clone, Copy, Debug, PartialEq, Eq, Structural)]
pub enum InvocationError {
    /// The event is not a time event.
    UnexpectedInvocationKind,
}

/// What an invocation comes to.
#[derive(Debug)]
pub enum Report {
    /// The claim was accepted: this snapshot is to be written.
    Updated(ChainSnapshot),
    /// No claim was pending: nothing to write.
    NoMessage,
    /// The pending claim is about the block accepted last: nothing to
    /// write.
    Stale,
    /// The pending claim was rejected: nothing to write.
    Rejected(ValidationError),
}

/// A report as specifications see it.
pub enum ReportView {
    Updated(SnapshotView),
    NoMessage,
    Stale,
    Rejected(ValidationError),
}

impl View for Report {
    type V = ReportView;

    open spec fn view(&self) -> ReportView {
        match self {
            Report::Updated(snapshot) => ReportView::Updated(snapshot@),
            Report::NoMessage => ReportView::NoMessage,
            Report::Stale => ReportView::Stale,
            Report::Rejected(error) => ReportView::Rejected(*error),
        }
    }
}

/// What an invocation comes to, given the snapshot and the pending claim:
/// without a claim nothing happens; with one, the outcome of the checks
/// decides, and only an accepted claim leaves something to write.
pub open spec fn report_of(
    verdict: spec_fn(Seq<u8>, Digest, Seq<u8>) -> bool,
    hash: spec_fn(Digest, Digest) -> Digest,
    snapshot: SnapshotView,
    pending: Option<MessageView>,
    max_depth: nat,
) -> ReportView {
    match pending {
        None => ReportView::NoMessage,
        Some(message) => match pipeline_outcome(verdict, hash, snapshot, message, max_depth) {
            OutcomeView::Accepted(next) => ReportView::Updated(next),
            OutcomeView::Stale => ReportView::Stale,
            OutcomeView::Rejected(error) => ReportView::Rejected(error),
        },
    }
}

/// The claim of a pending message, if there is one, as specifications see
/// it.
pub open spec fn pending_view(pending: Option<RelayBlockMessage>) -> Option<MessageView> {
    match pending {
        Some(message) => Some(message@),
        None => None,
    }
}

/// Whether an event of this kind may start an invocation: a time event
/// may, and no other.
pub fn admit_event(kind: EventKind) -> (admitted: Result<(), InvocationError>)
    ensures
        admitted == (if kind == EventKind::Time {
            Ok::<(), InvocationError>(())
        } else {
            Err(InvocationError::UnexpectedInvocationKind)
        }),
{
    match kind {
        EventKind::Time => Ok(()),
        EventKind::Other => Err(InvocationError::UnexpectedInvocationKind),
    }
}

/// Decides what an invocation comes to, once the snapshot and the pending
/// claim have been read.
pub fn decide<V: Fn(&PublicKey, &Digest, &Signature) -> bool, H: Fn(&Digest, &Digest) -> Digest>(
    chain: &ChainSnapshot,
    pending: &Option<RelayBlockMessage>,
    max_depth: usize,
    verifier: &V,
    hasher: &H,
) -> (report: Report)
    requires
        verifier_is_function(verifier),
        hasher_is_function(hasher),
    ensures
        report@ == report_of(
            verdict_of(verifier),
            hash_of(hasher),
            chain@,
            pending_view(*pending),
            max_depth as nat,
        ),
        report@ is Updated ==> pending is Some,
{
    match pending {
        None => Report::NoMessage,
        Some(message) => match verify_block(chain, message, max_depth, verifier, hasher) {
            Outcome::Accepted(next) => Report::Updated(next),
            Outcome::Stale => Report::Stale,
            Outcome::Rejected(error) => Report::Rejected(error),
        },
    }
}

} // verus!
