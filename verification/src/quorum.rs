//! The signature quorum rule.
//!
//! A block claim passes when enough validators are recognized: a validator
//! is recognized when at least one of the presented signatures is its
//! signature over the digest. Signatures that belong to no validator are
//! ignored. A claim without any signature never passes.

use vstd::prelude::*;
use vstd::seq_lib::seq_to_set_is_finite;
use vstd::set_lib::lemma_len_subset;
use crate::backend::{check_signature, verdict_of, verifier_is_function};
use crate::digest::Digest;
use crate::keys::{PublicKey, Signature, SignatureSet, ValidatorSet};

verus! {

/// Why the signatures of a claim do not carry it.
#[derive(Clone, Copy, Debug, PartialEq, Eq, Structural)]
pub enum QuorumError {
    /// The claim came without any signature.
    NoSignatures,
    /// Fewer validators were recognized than the rule asks for.
    InsufficientQuorum { recognized: usize, required: usize },
}

/// How many validators have to be recognized, out of `validators`: twice
/// the whole part of a third of them.
///
/// This is not the customary "more than two thirds": it rounds down before
/// it doubles, so that five validators need two and fewer than three need
/// none. [`law_required_count_bounds`] says how far below two thirds it
/// can fall.
pub open spec fn required_count(validators: nat) -> nat {
    validators / 3 * 2
}

/// The required count is at most two thirds of the validators, and falls
/// short of two thirds by less than two.
pub proof fn law_required_count_bounds(validators: nat)
    ensures
        3 * required_count(validators) <= 2 * validators,
        2 * validators < 3 * required_count(validators) + 6,
        required_count(validators) % 2 == 0,
{
}

/// Whether one of `signatures` is a signature over `digest` by `key`.
pub open spec fn is_recognized(
    verdict: spec_fn(Seq<u8>, Digest, Seq<u8>) -> bool,
    key: Seq<u8>,
    digest: Digest,
    signatures: Set<Seq<u8>>,
) -> bool {
    exists|signature: Seq<u8>| signatures.contains(signature) && verdict(key, digest, signature)
}

/// The validators that are recognized.
pub open spec fn recognized(
    verdict: spec_fn(Seq<u8>, Digest, Seq<u8>) -> bool,
    validators: Set<Seq<u8>>,
    digest: Digest,
    signatures: Set<Seq<u8>>,
) -> Set<Seq<u8>> {
    validators.filter(|key: Seq<u8>| is_recognized(verdict, key, digest, signatures))
}

/// What the quorum rule says of a claim.
pub open spec fn quorum_outcome(
    verdict: spec_fn(Seq<u8>, Digest, Seq<u8>) -> bool,
    validators: Set<Seq<u8>>,
    digest: Digest,
    signatures: Set<Seq<u8>>,
) -> Result<(), QuorumError> {
    let found = recognized(verdict, validators, digest, signatures).len();
    let needed = required_count(validators.len());
    if signatures == Set::<Seq<u8>>::empty() {
        Err(QuorumError::NoSignatures)
    } else if found < needed {
        Err(QuorumError::InsufficientQuorum { recognized: found as usize, required: needed as usize })
    } else {
        Ok(())
    }
}

/// The number of validators that have to be recognized, out of
/// `validators`.
pub fn required_signatures(validators: usize) -> (required: usize)
    ensures
        required == required_count(validators as nat),
        required <= validators,
{
    validators / 3 * 2
}

/// Whether one of the signatures is by this key.
pub fn has_signature_by<V: Fn(&PublicKey, &Digest, &Signature) -> bool>(
    key: &PublicKey,
    digest: &Digest,
    signatures: &SignatureSet,
    verifier: &V,
) -> (found: bool)
    requires
        verifier_is_function(verifier),
    ensures
        found == is_recognized(verdict_of(verifier), key@, *digest, signatures@),
{
    let count = signatures.len();
    let mut at: usize = 0;
    while at < count
        invariant
            at <= count,
            count == signatures.listing().len(),
            verifier_is_function(verifier),
            forall|j: int|
                0 <= j < at ==> !verdict_of(verifier)(key@, *digest, #[trigger] signatures.listing()[j]),
        decreases count - at,
    {
        let signature = signatures.get(at);
        if check_signature(verifier, key, digest, signature) {
            assert(signatures@.contains(signatures.listing()[at as int]));
            return true;
        }
        at += 1;
    }
    false
}

/// One more validator is looked at: the number of recognized validators
/// grows by one if it is recognized, and stays if it is not.
proof fn lemma_recognized_one_more(
    verdict: spec_fn(Seq<u8>, Digest, Seq<u8>) -> bool,
    listing: Seq<Seq<u8>>,
    digest: Digest,
    signatures: Set<Seq<u8>>,
    seen: int,
)
    requires
        listing.no_duplicates(),
        0 <= seen < listing.len(),
    ensures
        recognized(verdict, listing.take(seen).to_set(), digest, signatures).finite(),
        recognized(verdict, listing.take(seen + 1).to_set(), digest, signatures).len() == recognized(
            verdict,
            listing.take(seen).to_set(),
            digest,
            signatures,
        ).len() + (if is_recognized(verdict, listing[seen], digest, signatures) {
            1nat
        } else {
            0nat
        }),
{
    let before = listing.take(seen).to_set();
    let after = listing.take(seen + 1).to_set();
    let next = listing[seen];
    let rule = |key: Seq<u8>| is_recognized(verdict, key, digest, signatures);
    assert(listing.take(seen + 1) == listing.take(seen).push(next));
    listing.take(seen).lemma_push_to_set_commute(next);
    assert(!before.contains(next)) by {
        if before.contains(next) {
            let j = choose|j: int| 0 <= j < seen && listing.take(seen)[j] == next;
            assert(listing[j] == listing[seen]);
        }
    }
    seq_to_set_is_finite(listing.take(seen));
    before.lemma_len_filter(rule);
    if rule(next) {
        assert(after.filter(rule) =~= before.filter(rule).insert(next));
    } else {
        assert(after.filter(rule) =~= before.filter(rule));
    }
}

/// The number of validators that are recognized.
pub fn count_recognized<V: Fn(&PublicKey, &Digest, &Signature) -> bool>(
    validators: &ValidatorSet,
    digest: &Digest,
    signatures: &SignatureSet,
    verifier: &V,
) -> (count: usize)
    requires
        verifier_is_function(verifier),
    ensures
        count == recognized(verdict_of(verifier), validators@, *digest, signatures@).len(),
        count <= validators@.len(),
{
    let total = validators.len();
    let mut count: usize = 0;
    let mut seen: usize = 0;
    proof {
        assert(validators.listing().take(0).to_set() =~= Set::<Seq<u8>>::empty());
        assert(recognized(
            verdict_of(verifier),
            Set::<Seq<u8>>::empty(),
            *digest,
            signatures@,
        ) =~= Set::<Seq<u8>>::empty());
    }
    while seen < total
        invariant
            seen <= total,
            total == validators.listing().len(),
            validators.listing().no_duplicates(),
            verifier_is_function(verifier),
            count <= seen,
            count == recognized(
                verdict_of(verifier),
                validators.listing().take(seen as int).to_set(),
                *digest,
                signatures@,
            ).len(),
        decreases total - seen,
    {
        let key = validators.get(seen);
        let found = has_signature_by(key, digest, signatures, verifier);
        proof {
            lemma_recognized_one_more(
                verdict_of(verifier),
                validators.listing(),
                *digest,
                signatures@,
                seen as int,
            );
        }
        if found {
            count += 1;
        }
        seen += 1;
    }
    assert(validators.listing().take(total as int) == validators.listing());
    count
}

/// Applies the quorum rule to the signatures of a claim.
///
/// Without any signature the claim fails at once, however few validators
/// there are. Otherwise the validators with at least one signature of
/// their own are counted, and the claim fails if they are fewer than
/// [`required_count`] asks for.
pub fn check<V: Fn(&PublicKey, &Digest, &Signature) -> bool>(
    validators: &ValidatorSet,
    digest: &Digest,
    signatures: &SignatureSet,
    verifier: &V,
) -> (outcome: Result<(), QuorumError>)
    requires
        verifier_is_function(verifier),
    ensures
        outcome == quorum_outcome(verdict_of(verifier), validators@, *digest, signatures@),
{
    if signatures.is_empty() {
        return Err(QuorumError::NoSignatures);
    }
    let required = required_signatures(validators.len());
    let found = count_recognized(validators, digest, signatures, verifier);
    if found < required {
        return Err(QuorumError::InsufficientQuorum { recognized: found, required });
    }
    Ok(())
}

/// A signature that is by none of the validators is ignored: adding it to
/// the signatures of a claim leaves the claim passing or failing as it was,
/// and, where the claim had a signature already, with the same counts.
///
/// One case is left out, because in it the extra signature does matter: a
/// claim without any signature always fails, yet with fewer than three
/// validators nothing is required, so any signature at all makes it pass.
pub proof fn law_unmatched_signature_is_ignored(
    verdict: spec_fn(Seq<u8>, Digest, Seq<u8>) -> bool,
    validators: Set<Seq<u8>>,
    digest: Digest,
    signatures: Set<Seq<u8>>,
    extra: Seq<u8>,
)
    requires
        forall|key: Seq<u8>| validators.contains(key) ==> !verdict(key, digest, extra),
        !(signatures == Set::<Seq<u8>>::empty() && validators.len() < 3),
    ensures
        quorum_outcome(verdict, validators, digest, signatures.insert(extra)) is Ok
            <==> quorum_outcome(verdict, validators, digest, signatures) is Ok,
        signatures != Set::<Seq<u8>>::empty() ==> quorum_outcome(
            verdict,
            validators,
            digest,
            signatures.insert(extra),
        ) == quorum_outcome(verdict, validators, digest, signatures),
{
    let with_extra = signatures.insert(extra);
    assert(with_extra.contains(extra));
    assert forall|key: Seq<u8>| validators.contains(key) implies (is_recognized(
        verdict,
        key,
        digest,
        with_extra,
    ) <==> is_recognized(verdict, key, digest, signatures)) by {
        if is_recognized(verdict, key, digest, with_extra) {
            let witness = choose|signature: Seq<u8>|
                with_extra.contains(signature) && verdict(key, digest, signature);
        }
        if is_recognized(verdict, key, digest, signatures) {
            let witness = choose|signature: Seq<u8>|
                signatures.contains(signature) && verdict(key, digest, signature);
            assert(with_extra.contains(witness));
        }
    }
    assert(recognized(verdict, validators, digest, with_extra) =~= recognized(
        verdict,
        validators,
        digest,
        signatures,
    ));
    if signatures == Set::<Seq<u8>>::empty() {
        assert(recognized(verdict, validators, digest, signatures) =~= Set::<Seq<u8>>::empty());
    }
}

/// Taking a signature away never turns a failing claim into a passing one.
pub proof fn law_removing_signature_never_helps(
    verdict: spec_fn(Seq<u8>, Digest, Seq<u8>) -> bool,
    validators: Set<Seq<u8>>,
    digest: Digest,
    signatures: Set<Seq<u8>>,
    removed: Seq<u8>,
)
    requires
        validators.finite(),
    ensures
        quorum_outcome(verdict, validators, digest, signatures.remove(removed)) is Ok
            ==> quorum_outcome(verdict, validators, digest, signatures) is Ok,
{
    let fewer = signatures.remove(removed);
    if quorum_outcome(verdict, validators, digest, fewer) is Ok {
        assert(signatures != Set::<Seq<u8>>::empty()) by {
            if signatures == Set::<Seq<u8>>::empty() {
                assert(fewer =~= Set::<Seq<u8>>::empty());
            }
        }
        let rule = |key: Seq<u8>| is_recognized(verdict, key, digest, signatures);
        validators.lemma_len_filter(rule);
        assert(recognized(verdict, validators, digest, fewer).subset_of(
            recognized(verdict, validators, digest, signatures),
        )) by {
            assert forall|key: Seq<u8>|
                recognized(verdict, validators, digest, fewer).contains(key) implies recognized(
                verdict,
                validators,
                digest,
                signatures,
            ).contains(key) by {
                let witness = choose|signature: Seq<u8>|
                    fewer.contains(signature) && verdict(key, digest, signature);
            }
        }
        lemma_len_subset(
            recognized(verdict, validators, digest, fewer),
            recognized(verdict, validators, digest, signatures),
        );
    }
}

} // verus!
