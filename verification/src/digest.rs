//! Fixed-width digests.

use vstd::prelude::*;
use vstd::std_specs::cmp::PartialEqSpecImpl;

verus! {

/// Number of bytes in a [`Digest`].
pub const DIGEST_LEN: usize = 32;

/// The output of the hash function: thirty-two bytes, compared byte by byte.
///
/// Two digests are equal exactly when all their bytes are equal, in
/// specifications and in executable code alike.
#[derive(Clone, Copy, Debug)]
pub struct Digest {
    pub bytes: [u8; 32],
}

impl PartialEq for Digest {
    fn eq(&self, other: &Digest) -> (same: bool) {
        let mut i: usize = 0;
        while i < DIGEST_LEN
            invariant
                i <= DIGEST_LEN,
                forall|j: int| 0 <= j < i ==> self.bytes[j] == other.bytes[j],
            decreases DIGEST_LEN - i,
        {
            if self.bytes[i] != other.bytes[i] {
                return false;
            }
            i += 1;
        }
        assert(self.bytes =~= other.bytes);
        true
    }
}

impl PartialEqSpecImpl for Digest {
    open spec fn obeys_eq_spec() -> bool {
        true
    }

    open spec fn eq_spec(&self, other: &Digest) -> bool {
        *self == *other
    }
}

impl Eq for Digest {

}

impl Digest {
    /// Wraps thirty-two bytes as a digest.
    pub fn new(bytes: [u8; 32]) -> (digest: Digest)
        ensures
            digest.bytes == bytes,
    {
        Digest { bytes }
    }
}

/// Whether two optional digests are the same: both absent, or both present
/// and equal.
pub fn same_optional(left: &Option<Digest>, right: &Option<Digest>) -> (same: bool)
    ensures
        same == (*left == *right),
{
    left == right
}

} // verus!
