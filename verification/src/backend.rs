//! The cryptographic backend, as this library sees it.
//!
//! The library never hashes or checks a signature itself. Callers hand it
//! two capabilities: a pairwise hash, from a left and a right digest to
//! their parent digest, and a signature check, from a public key, a message
//! digest and a signature to a verdict. Contracts speak of them through
//! the mathematical functions they compute, [`hash_of`] and [`verdict_of`],
//! and ask that they do compute one: [`hasher_is_function`],
//! [`verifier_is_function`].

use vstd::prelude::*;
use crate::digest::Digest;
use crate::keys::{PublicKey, Signature};

verus! {

/// The pairwise hash can be called on every pair of digests, and a pair has
/// one parent only.
pub open spec fn hasher_is_function<H: Fn(&Digest, &Digest) -> Digest>(hasher: &H) -> bool {
    &&& forall|left: Digest, right: Digest| call_requires(*hasher, (&left, &right))
    &&& forall|left: Digest, right: Digest, first: Digest, second: Digest|
        call_ensures(*hasher, (&left, &right), first) && call_ensures(
            *hasher,
            (&left, &right),
            second,
        ) ==> first == second
}

/// The function that the pairwise hash computes.
pub open spec fn hash_of<H: Fn(&Digest, &Digest) -> Digest>(hasher: &H) -> spec_fn(
    Digest,
    Digest,
) -> Digest {
    |left: Digest, right: Digest| choose|parent: Digest| call_ensures(*hasher, (&left, &right), parent)
}

/// Hashes one pair, and says that the result is the value of [`hash_of`].
pub fn hash_pair<H: Fn(&Digest, &Digest) -> Digest>(hasher: &H, left: &Digest, right: &Digest) -> (parent: Digest)
    requires
        hasher_is_function(hasher),
    ensures
        call_ensures(*hasher, (left, right), parent),
        parent == hash_of(hasher)(*left, *right),
{
    hasher(left, right)
}

/// The signature check can be called on every key, digest and signature,
/// and its verdict depends on nothing but the digest and the bytes of the
/// key and of the signature.
pub open spec fn verifier_is_function<V: Fn(&PublicKey, &Digest, &Signature) -> bool>(verifier: &V) -> bool {
    &&& forall|key: PublicKey, digest: Digest, signature: Signature|
        call_requires(*verifier, (&key, &digest, &signature))
    &&& forall|
        key: PublicKey,
        signature: Signature,
        same_key: PublicKey,
        same_signature: Signature,
        digest: Digest,
        first: bool,
        second: bool,
    |
        key@ == same_key@ && signature@ == same_signature@ && call_ensures(
            *verifier,
            (&key, &digest, &signature),
            first,
        ) && call_ensures(*verifier, (&same_key, &digest, &same_signature), second) ==> first
            == second
}

/// The function that the signature check computes: whether the signature
/// with these bytes is one over `digest` by the key with those bytes.
pub open spec fn verdict_of<V: Fn(&PublicKey, &Digest, &Signature) -> bool>(verifier: &V) -> spec_fn(
    Seq<u8>,
    Digest,
    Seq<u8>,
) -> bool {
    |key: Seq<u8>, digest: Digest, signature: Seq<u8>|
        exists|k: PublicKey, s: Signature|
            k@ == key && s@ == signature && call_ensures(*verifier, (&k, &digest, &s), true)
}

/// Checks one signature against one key, and says that the result is the
/// value of [`verdict_of`].
pub fn check_signature<V: Fn(&PublicKey, &Digest, &Signature) -> bool>(
    verifier: &V,
    key: &PublicKey,
    digest: &Digest,
    signature: &Signature,
) -> (valid: bool)
    requires
        verifier_is_function(verifier),
    ensures
        call_ensures(*verifier, (key, digest, signature), valid),
        valid == verdict_of(verifier)(key@, *digest, signature@),
{
    verifier(key, digest, signature)
}

} // verus!
