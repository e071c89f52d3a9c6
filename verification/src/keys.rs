//! Public keys, signatures, and sets of them.
//!
//! Keys and signatures are held as the bytes of their encoding; what the
//! bytes mean is the business of the signature check that the caller
//! supplies. A set keeps its members in the order in which they were added
//! and never holds the same bytes twice.

use vstd::prelude::*;

verus! {

/// Whether two byte strings are the same.
pub fn same_bytes(left: &Vec<u8>, right: &Vec<u8>) -> (same: bool)
    ensures
        same == (left@ == right@),
{
    if left.len() != right.len() {
        return false;
    }
    let mut i: usize = 0;
    while i < left.len()
        invariant
            i <= left.len(),
            left.len() == right.len(),
            forall|j: int| 0 <= j < i ==> left[j] == right[j],
        decreases left.len() - i,
    {
        if left[i] != right[i] {
            return false;
        }
        i += 1;
    }
    assert(left@ =~= right@);
    true
}

/// A copy of a byte string.
pub fn copy_bytes(bytes: &Vec<u8>) -> (copy: Vec<u8>)
    ensures
        copy@ == bytes@,
{
    let copy = bytes.clone();
    copy
}

/// A value that is known by the bytes of its encoding, which are its view.
pub trait ByteString: View<V = Seq<u8>> + Sized {
    /// The encoding.
    fn as_bytes(&self) -> (bytes: &Vec<u8>)
        ensures
            bytes@ == self@,
    ;

    /// The value with this encoding.
    fn from_bytes(bytes: Vec<u8>) -> (item: Self)
        ensures
            item@ == bytes@,
    ;
}

/// The public key of a validator.
#[derive(Debug)]
pub struct PublicKey {
    pub bytes: Vec<u8>,
}

/// A signature over the digest of a block header. It does not say whose it
/// is: that is found by checking it against each candidate key.
#[derive(Debug)]
pub struct Signature {
    pub bytes: Vec<u8>,
}

impl View for PublicKey {
    type V = Seq<u8>;

    open spec fn view(&self) -> Seq<u8> {
        self.bytes@
    }
}

impl View for Signature {
    type V = Seq<u8>;

    open spec fn view(&self) -> Seq<u8> {
        self.bytes@
    }
}

impl ByteString for PublicKey {
    fn as_bytes(&self) -> (bytes: &Vec<u8>) {
        &self.bytes
    }

    fn from_bytes(bytes: Vec<u8>) -> (item: PublicKey) {
        PublicKey { bytes }
    }
}

impl ByteString for Signature {
    fn as_bytes(&self) -> (bytes: &Vec<u8>) {
        &self.bytes
    }

    fn from_bytes(bytes: Vec<u8>) -> (item: Signature) {
        Signature { bytes }
    }
}

/// The encodings of a list of values, in the same order.
pub open spec fn encodings<T: ByteString>(items: Seq<T>) -> Seq<Seq<u8>> {
    Seq::new(items.len(), |i: int| items[i]@)
}

/// A set of byte strings of one kind.
#[derive(Debug)]
pub struct ByteSet<T: ByteString> {
    members: Vec<T>,
}

/// The validators whose signatures count.
pub type ValidatorSet = ByteSet<PublicKey>;

/// The signatures that came with a block.
pub type SignatureSet = ByteSet<Signature>;

impl<T: ByteString> ByteSet<T> {
    /// The members in the order in which they were added.
    pub closed spec fn listing(&self) -> Seq<Seq<u8>> {
        encodings(self.members@)
    }

    #[verifier::type_invariant]
    closed spec fn distinct(&self) -> bool {
        self.listing().no_duplicates()
    }

    /// The empty set.
    pub fn new() -> (set: Self)
        ensures
            set@ == Set::<Seq<u8>>::empty(),
            set.listing() == Seq::<Seq<u8>>::empty(),
    {
        let set = ByteSet { members: Vec::new() };
        set
    }

    /// The number of members. The listing names each member once.
    pub fn len(&self) -> (count: usize)
        ensures
            count == self@.len(),
            count == self.listing().len(),
            self.listing().no_duplicates(),
            self@.finite(),
    {
        proof {
            use_type_invariant(self);
            self.listing().unique_seq_to_set();
        }
        self.members.len()
    }

    /// Whether the set has no member.
    pub fn is_empty(&self) -> (empty: bool)
        ensures
            empty == (self@ == Set::<Seq<u8>>::empty()),
            empty == (self.listing().len() == 0),
    {
        proof {
            if self.listing().len() == 0 {
                assert(self@ =~= Set::<Seq<u8>>::empty());
            } else {
                assert(self@.contains(self.listing()[0]));
            }
        }
        self.members.len() == 0
    }

    /// The member at one place of the listing.
    pub fn get(&self, at: usize) -> (member: &T)
        requires
            at < self.listing().len(),
        ensures
            member@ == self.listing()[at as int],
    {
        &self.members[at]
    }

    /// Whether the set holds these bytes.
    pub fn contains(&self, item: &T) -> (found: bool)
        ensures
            found == self@.contains(item@),
    {
        let mut i: usize = 0;
        while i < self.members.len()
            invariant
                i <= self.members.len(),
                forall|j: int| 0 <= j < i ==> self.listing()[j] != item@,
            decreases self.members.len() - i,
        {
            if same_bytes(self.members[i].as_bytes(), item.as_bytes()) {
                assert(self.listing()[i as int] == item@);
                return true;
            }
            i += 1;
        }
        false
    }

    /// Adds a member. Bytes that the set already holds are not added again;
    /// the result says whether the set grew.
    pub fn insert(&mut self, item: T) -> (added: bool)
        ensures
            final(self)@ == old(self)@.insert(item@),
            added == !old(self)@.contains(item@),
            added ==> final(self).listing() == old(self).listing().push(item@),
            !added ==> final(self).listing() == old(self).listing(),
    {
        proof {
            use_type_invariant(&*self);
        }
        if self.contains(&item) {
            return false;
        }
        let ghost before = self.listing();
        let mut members: Vec<T> = Vec::new();
        core::mem::swap(&mut self.members, &mut members);
        members.push(item);
        proof {
            assert(encodings(members@) =~= before.push(item@));
            before.lemma_push_to_set_commute(item@);
        }
        core::mem::swap(&mut self.members, &mut members);
        true
    }
}

impl<T: ByteString> View for ByteSet<T> {
    type V = Set<Seq<u8>>;

    open spec fn view(&self) -> Set<Seq<u8>> {
        self.listing().to_set()
    }
}

impl<T: ByteString> Clone for ByteSet<T> {
    fn clone(&self) -> (copy: Self)
        ensures
            copy@ == self@,
            copy.listing() == self.listing(),
    {
        proof {
            use_type_invariant(self);
        }
        let mut members: Vec<T> = Vec::new();
        let mut i: usize = 0;
        while i < self.members.len()
            invariant
                i <= self.members.len(),
                members.len() == i,
                self.listing().len() == self.members.len(),
                encodings(members@) == self.listing().take(i as int),
            decreases self.members.len() - i,
        {
            let ghost copied = encodings(members@);
            let bytes = copy_bytes(self.members[i].as_bytes());
            members.push(T::from_bytes(bytes));
            assert(encodings(members@) =~= copied.push(self.listing()[i as int]));
            i += 1;
        }
        assert(self.listing().take(i as int) == self.listing());
        ByteSet { members }
    }
}

impl Clone for PublicKey {
    fn clone(&self) -> (copy: PublicKey)
        ensures
            copy@ == self@,
    {
        PublicKey { bytes: copy_bytes(&self.bytes) }
    }
}

impl Clone for Signature {
    fn clone(&self) -> (copy: Signature)
        ensures
            copy@ == self@,
    {
        Signature { bytes: copy_bytes(&self.bytes) }
    }
}

} // verus!
