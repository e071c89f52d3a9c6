//! Verification of relayed block claims against a locally trusted chain
//! snapshot.
//!
//! A relay that nobody trusts pushes claims about the next block of a
//! remote chain. This library decides whether to accept such a claim from
//! what is held locally alone: the set of validators and the header of the
//! last block that was accepted. It never runs the remote chain and never
//! takes the relay's word for anything.
//!
//! - [`digest`]: thirty-two byte digests.
//! - [`keys`]: public keys, signatures, and sets of them.
//! - [`backend`]: the hash function and the signature scheme, which the
//!   caller supplies, and how contracts speak of them.
//! - [`merkle`]: bounded Merkle inclusion proofs.
//! - [`quorum`]: the rule by which signatures carry a claim.
//! - [`block`]: headers, snapshots and claims.
//! - [`pipeline`]: the checks a claim goes through, and their outcome.
//! - [`driver`]: what one invocation decides.
//!
//! Every executable function states what it returns over a mathematical
//! model of its arguments, and is proved to keep that promise. What holds
//! of several functions together is stated in the proof functions whose
//! names start with `law_`.

pub mod backend;
pub mod block;
pub mod digest;
pub mod driver;
pub mod keys;
pub mod merkle;
pub mod pipeline;
pub mod quorum;
