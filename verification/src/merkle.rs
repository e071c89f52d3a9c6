//! Bounded Merkle inclusion proofs.
//!
//! A proof is the list of siblings met on the way from a leaf up to the
//! root, each with the side it stands on. Checking it folds the pairwise
//! hash over the list and compares the result with the expected root.

use vstd::prelude::*;
use vstd::arithmetic::power2::{lemma2_to64, pow2};
use crate::backend::{hash_of, hash_pair, hasher_is_function};
use crate::digest::Digest;

verus! {

/// Proofs longer than this are refused by default: a block holds at most
/// [`MAX_TRANSACTIONS_PER_BLOCK`] transactions, and a balanced tree over
/// that many leaves has this depth.
pub const MAX_VERIFY_DEPTH: usize = 9;

/// The largest number of transactions that a block is expected to hold.
pub const MAX_TRANSACTIONS_PER_BLOCK: usize = 512;

/// A balanced tree of the default depth has room for exactly the largest
/// block.
pub proof fn law_default_depth_holds_largest_block()
    ensures
        pow2(MAX_VERIFY_DEPTH as nat) == MAX_TRANSACTIONS_PER_BLOCK,
{
    lemma2_to64();
}

/// The side on which a sibling stands.
#[derive(Clone, Copy, Debug, PartialEq, Eq, Structural)]
pub enum Side {
    /// The sibling is the left child; the running digest is the right one.
    Left,
    /// The sibling is the right child; the running digest is the left one.
    Right,
}

/// One step of a proof: the sibling digest and where it stands.
#[derive(Clone, Copy, Debug)]
pub struct ProofStep {
    pub sibling: Digest,
    pub side: Side,
}

/// A proof path, ordered from the leaf towards the root.
#[derive(Debug)]
pub struct MerklePath {
    pub steps: Vec<ProofStep>,
}

impl View for MerklePath {
    type V = Seq<ProofStep>;

    open spec fn view(&self) -> Seq<ProofStep> {
        self.steps@
    }
}

/// The parent of the running digest and the sibling of one step.
pub open spec fn combine(hash: spec_fn(Digest, Digest) -> Digest, running: Digest, step: ProofStep) -> Digest {
    match step.side {
        Side::Left => hash(step.sibling, running),
        Side::Right => hash(running, step.sibling),
    }
}

/// The digest reached from `leaf` after all the steps of `path`.
pub open spec fn climb(hash: spec_fn(Digest, Digest) -> Digest, leaf: Digest, path: Seq<ProofStep>) -> Digest
    decreases path.len(),
{
    if path.len() == 0 {
        leaf
    } else {
        combine(hash, climb(hash, leaf, path.drop_last()), path.last())
    }
}

/// When a proof is accepted: it is no longer than `max_depth`, and it
/// leads from `leaf` to `root`.
pub open spec fn proves(
    hash: spec_fn(Digest, Digest) -> Digest,
    leaf: Digest,
    path: Seq<ProofStep>,
    root: Digest,
    max_depth: nat,
) -> bool {
    path.len() <= max_depth && climb(hash, leaf, path) == root
}

/// Checks that `path` leads from `leaf` to `root` in at most `max_depth`
/// steps. A longer path is refused before anything is hashed.
pub fn verify<H: Fn(&Digest, &Digest) -> Digest>(
    leaf: &Digest,
    path: &MerklePath,
    root: &Digest,
    max_depth: usize,
    hasher: &H,
) -> (accepted: bool)
    requires
        hasher_is_function(hasher),
    ensures
        accepted == proves(hash_of(hasher), *leaf, path@, *root, max_depth as nat),
        path@.len() > max_depth ==> !accepted,
        path@.len() == 0 ==> accepted == (*leaf == *root),
{
    let steps = path.steps.len();
    if steps > max_depth {
        return false;
    }
    let mut running = *leaf;
    let mut done: usize = 0;
    while done < steps
        invariant
            steps == path@.len(),
            done <= steps,
            hasher_is_function(hasher),
            running == climb(hash_of(hasher), *leaf, path@.take(done as int)),
        decreases steps - done,
    {
        let step = path.steps[done];
        assert(path@.take(done + 1).drop_last() == path@.take(done as int));
        running = match step.side {
            Side::Left => hash_pair(hasher, &step.sibling, &running),
            Side::Right => hash_pair(hasher, &running, &step.sibling),
        };
        done += 1;
    }
    assert(path@.take(steps as int) == path@);
    running == *root
}

/// A binary hash tree over leaf digests. It lives in specifications only:
/// it says which proofs an honest prover hands out.
pub enum Tree {
    Leaf(Digest),
    Node(Box<Tree>, Box<Tree>),
}

/// The root digest of a tree.
pub open spec fn root_of(hash: spec_fn(Digest, Digest) -> Digest, tree: Tree) -> Digest
    decreases tree,
{
    match tree {
        Tree::Leaf(digest) => digest,
        Tree::Node(left, right) => hash(root_of(hash, *left), root_of(hash, *right)),
    }
}

/// The leaf found by walking down from the root, taking at each node the
/// child that `route` names. `None` where the route leaves the tree or
/// stops above a leaf.
pub open spec fn leaf_at(tree: Tree, route: Seq<Side>) -> Option<Digest>
    decreases route.len(),
{
    match tree {
        Tree::Leaf(digest) => if route.len() == 0 {
            Some(digest)
        } else {
            None
        },
        Tree::Node(left, right) => if route.len() == 0 {
            None
        } else {
            match route.first() {
                Side::Left => leaf_at(*left, route.drop_first()),
                Side::Right => leaf_at(*right, route.drop_first()),
            }
        },
    }
}

/// The proof that an honest prover builds for the leaf at `route`: on the
/// way back up, the root of the subtree that was not entered, with the side
/// it stands on.
pub open spec fn path_to(hash: spec_fn(Digest, Digest) -> Digest, tree: Tree, route: Seq<Side>) -> Seq<ProofStep>
    decreases route.len(),
{
    match tree {
        Tree::Leaf(_) => Seq::empty(),
        Tree::Node(left, right) => if route.len() == 0 {
            Seq::empty()
        } else {
            match route.first() {
                Side::Left => path_to(hash, *left, route.drop_first()).push(
                    ProofStep { sibling: root_of(hash, *right), side: Side::Right },
                ),
                Side::Right => path_to(hash, *right, route.drop_first()).push(
                    ProofStep { sibling: root_of(hash, *left), side: Side::Left },
                ),
            }
        },
    }
}

/// On the way up `path`, two different running digests never get the same
/// parent: started from `one` and from `other`, the two climbs meet no
/// collision of the hash.
pub open spec fn no_collision_met(
    hash: spec_fn(Digest, Digest) -> Digest,
    one: Digest,
    other: Digest,
    path: Seq<ProofStep>,
) -> bool {
    forall|k: int|
        0 <= k < path.len() && climb(hash, one, #[trigger] path.take(k)) != climb(
            hash,
            other,
            path.take(k),
        ) ==> combine(hash, climb(hash, one, path.take(k)), path[k]) != combine(
            hash,
            climb(hash, other, path.take(k)),
            path[k],
        )
}

/// Climbing a path in two parts gives the same digest as climbing it whole.
pub proof fn lemma_climb_in_parts(
    hash: spec_fn(Digest, Digest) -> Digest,
    leaf: Digest,
    lower: Seq<ProofStep>,
    upper: Seq<ProofStep>,
)
    ensures
        climb(hash, leaf, lower + upper) == climb(hash, climb(hash, leaf, lower), upper),
    decreases upper.len(),
{
    if upper.len() > 0 {
        assert((lower + upper).drop_last() == lower + upper.drop_last());
        lemma_climb_in_parts(hash, leaf, lower, upper.drop_last());
    }
}

/// Two different digests stay different however far they climb along the
/// same path, unless the two climbs meet a collision of the hash.
pub proof fn lemma_climb_keeps_apart(
    hash: spec_fn(Digest, Digest) -> Digest,
    one: Digest,
    other: Digest,
    path: Seq<ProofStep>,
)
    requires
        one != other,
        no_collision_met(hash, one, other, path),
    ensures
        climb(hash, one, path) != climb(hash, other, path),
    decreases path.len(),
{
    if path.len() > 0 {
        let lower = path.drop_last();
        assert forall|k: int| 0 <= k < lower.len() implies lower.take(k) == path.take(k)
            && lower[k] == path[k] by {}
        assert(no_collision_met(hash, one, other, lower)) by {
            assert forall|k: int|
                0 <= k < lower.len() && climb(hash, one, #[trigger] lower.take(k)) != climb(
                    hash,
                    other,
                    lower.take(k),
                ) implies combine(hash, climb(hash, one, lower.take(k)), lower[k]) != combine(
                hash,
                climb(hash, other, lower.take(k)),
                lower[k],
            ) by {
                assert(lower.take(k) == path.take(k));
            }
        }
        lemma_climb_keeps_apart(hash, one, other, lower);
        assert(path.take(path.len() - 1) == lower);
    }
}

/// The proof that an honest prover builds for a leaf of a tree is as long
/// as the route to that leaf, and leads from the leaf to the root of the
/// tree; so it is accepted under every depth bound that admits its length.
pub proof fn law_honest_proof_is_accepted(
    hash: spec_fn(Digest, Digest) -> Digest,
    tree: Tree,
    route: Seq<Side>,
    leaf: Digest,
    max_depth: nat,
)
    requires
        leaf_at(tree, route) == Some(leaf),
    ensures
        path_to(hash, tree, route).len() == route.len(),
        climb(hash, leaf, path_to(hash, tree, route)) == root_of(hash, tree),
        route.len() <= max_depth ==> proves(
            hash,
            leaf,
            path_to(hash, tree, route),
            root_of(hash, tree),
            max_depth,
        ),
    decreases route.len(),
{
    match tree {
        Tree::Leaf(_) => {},
        Tree::Node(left, right) => {
            let rest = route.drop_first();
            match route.first() {
                Side::Left => {
                    law_honest_proof_is_accepted(hash, *left, rest, leaf, max_depth);
                    let below = path_to(hash, *left, rest);
                    assert(path_to(hash, tree, route).drop_last() == below);
                },
                Side::Right => {
                    law_honest_proof_is_accepted(hash, *right, rest, leaf, max_depth);
                    let below = path_to(hash, *right, rest);
                    assert(path_to(hash, tree, route).drop_last() == below);
                },
            }
        },
    }
}

/// A proof that is accepted for one root is refused for every other root.
pub proof fn law_other_root_is_refused(
    hash: spec_fn(Digest, Digest) -> Digest,
    leaf: Digest,
    path: Seq<ProofStep>,
    root: Digest,
    other: Digest,
    max_depth: nat,
)
    requires
        proves(hash, leaf, path, root, max_depth),
        other != root,
    ensures
        !proves(hash, leaf, path, other, max_depth),
{
}

/// A proof that is accepted for one leaf is refused for every other leaf,
/// unless the climb from the other leaf meets a collision of the hash with
/// the climb from the first.
pub proof fn law_other_leaf_is_refused(
    hash: spec_fn(Digest, Digest) -> Digest,
    leaf: Digest,
    path: Seq<ProofStep>,
    root: Digest,
    other: Digest,
    max_depth: nat,
)
    requires
        proves(hash, leaf, path, root, max_depth),
        other != leaf,
        no_collision_met(hash, leaf, other, path),
    ensures
        !proves(hash, other, path, root, max_depth),
{
    lemma_climb_keeps_apart(hash, leaf, other, path);
}

/// An accepted proof is refused once one of its steps is replaced, unless
/// a collision of the hash hides the change: either the new step gives the
/// digest below it the same parent as the old step did, or the climbs from
/// the two parents meet a collision further up. A step whose sibling equals
/// the digest below it gives the same parent on either side, so changing
/// only its side is a change of the first kind.
pub proof fn law_altered_step_is_refused(
    hash: spec_fn(Digest, Digest) -> Digest,
    leaf: Digest,
    path: Seq<ProofStep>,
    root: Digest,
    at: int,
    step: ProofStep,
    max_depth: nat,
)
    requires
        proves(hash, leaf, path, root, max_depth),
        0 <= at < path.len(),
        combine(hash, climb(hash, leaf, path.take(at)), step) != combine(
            hash,
            climb(hash, leaf, path.take(at)),
            path[at],
        ),
        no_collision_met(
            hash,
            combine(hash, climb(hash, leaf, path.take(at)), path[at]),
            combine(hash, climb(hash, leaf, path.take(at)), step),
            path.skip(at + 1),
        ),
    ensures
        !proves(hash, leaf, path.update(at, step), root, max_depth),
{
    let below = path.take(at);
    let above = path.skip(at + 1);
    let reached = climb(hash, leaf, below);
    let altered = path.update(at, step);
    assert(path == below.push(path[at]) + above);
    assert(altered == below.push(step) + above);
    assert(below.push(path[at]).drop_last() == below);
    assert(below.push(step).drop_last() == below);
    lemma_climb_in_parts(hash, leaf, below.push(path[at]), above);
    lemma_climb_in_parts(hash, leaf, below.push(step), above);
    lemma_climb_keeps_apart(
        hash,
        combine(hash, reached, path[at]),
        combine(hash, reached, step),
        above,
    );
}

/// A proof longer than the depth bound is refused, whatever it would lead
/// to.
pub proof fn law_depth_bound(
    hash: spec_fn(Digest, Digest) -> Digest,
    leaf: Digest,
    path: Seq<ProofStep>,
    root: Digest,
    max_depth: nat,
)
    requires
        path.len() > max_depth,
    ensures
        !proves(hash, leaf, path, root, max_depth),
{
}

} // verus!
