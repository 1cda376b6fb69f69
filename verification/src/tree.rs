//! The accumulators that a chain carries: one note commitment tree for each
//! shielded pool, and the history tree.

use vstd::prelude::*;
use crate::block::NoteRoots;
use crate::parameters::Digest;

verus! {

/// The number of leaves that a note commitment tree holds when nothing else
/// is asked for.
pub const NOTE_TREE_CAPACITY: u64 = 4_294_967_296;

/// An append-only accumulator of note commitments. It keeps its leaves in the
/// order in which they came, and takes no more than its capacity.
#[derive(Clone, Debug)]
pub struct NoteCommitmentTree {
    leaves: Vec<Digest>,
    capacity: u64,
}

impl View for NoteCommitmentTree {
    type V = Seq<Digest>;

    closed spec fn view(&self) -> Seq<Digest> {
        self.leaves@
    }
}

impl NoteCommitmentTree {
    /// The number of leaves that the tree takes.
    pub closed spec fn capacity(&self) -> nat {
        self.capacity as nat
    }

    /// A tree never holds more than its capacity.
    pub open spec fn wf(&self) -> bool {
        self@.len() <= self.capacity()
    }

    /// An empty tree of the usual capacity.
    pub fn new() -> (tree: NoteCommitmentTree)
        ensures
            tree@ == Seq::<Digest>::empty(),
            tree.capacity() == NOTE_TREE_CAPACITY,
            tree.wf(),
    {
        NoteCommitmentTree { leaves: Vec::new(), capacity: NOTE_TREE_CAPACITY }
    }

    /// An empty tree that takes `capacity` leaves.
    pub fn with_capacity(capacity: u64) -> (tree: NoteCommitmentTree)
        ensures
            tree@ == Seq::<Digest>::empty(),
            tree.capacity() == capacity,
            tree.wf(),
    {
        NoteCommitmentTree { leaves: Vec::new(), capacity }
    }

    /// The number of leaves in the tree.
    pub fn len(&self) -> (n: usize)
        ensures
            n == self@.len(),
    {
        self.leaves.len()
    }

    /// The leaves of the tree, oldest first.
    pub fn leaves(&self) -> (leaves: &Vec<Digest>)
        ensures
            leaves@ == self@,
    {
        &self.leaves
    }

    /// Adds `leaf` behind the leaves that are there. A full tree refuses it
    /// and stays as it is.
    pub fn append(&mut self, leaf: Digest) -> (taken: bool)
        requires
            old(self).wf(),
        ensures
            final(self).wf(),
            final(self).capacity() == old(self).capacity(),
            taken == (old(self)@.len() < old(self).capacity()),
            taken ==> final(self)@ == old(self)@.push(leaf),
            !taken ==> final(self)@ == old(self)@,
    {
        if (self.leaves.len() as u64) < self.capacity {
            self.leaves.push(leaf);
            true
        } else {
            false
        }
    }
}

/// The leaves of a tree after it has taken `more`, in order; or nothing, if
/// the tree is full before the last of them.
pub open spec fn appended(leaves: Seq<Digest>, capacity: nat, more: Seq<Digest>) -> Option<Seq<Digest>> {
    if leaves.len() + more.len() <= capacity {
        Some(leaves + more)
    } else {
        None
    }
}

/// Adds each of `more` to `tree`, in order, and says whether the tree took
/// them all. It stops at the first leaf that a full tree refuses.
pub fn append_all(tree: &mut NoteCommitmentTree, more: &Vec<Digest>) -> (taken: bool)
    requires
        old(tree).wf(),
    ensures
        final(tree).wf(),
        final(tree).capacity() == old(tree).capacity(),
        taken == appended(old(tree)@, old(tree).capacity(), more@).is_some(),
        taken ==> final(tree)@ == old(tree)@ + more@,
{
    let mut i: usize = 0;
    while i < more.len()
        invariant
            i <= more.len(),
            tree.wf(),
            tree.capacity() == old(tree).capacity(),
            tree@ == old(tree)@ + more@.take(i as int),
        decreases more.len() - i,
    {
        let taken = tree.append(more[i]);
        if !taken {
            return false;
        }
        assert(more@.take(i as int).push(more@[i as int]) =~= more@.take(i + 1));
        assert(tree@ =~= old(tree)@ + more@.take(i + 1));
        i += 1;
    }
    assert(more@.take(i as int) =~= more@);
    true
}

/// The history of a chain: for each block pushed so far, the roots of the
/// note commitment trees that were pushed with it. The blocks themselves are
/// the chain that the history belongs to.
#[derive(Clone, Debug)]
pub struct HistoryTree {
    roots: Vec<NoteRoots>,
}

impl View for HistoryTree {
    type V = Seq<NoteRoots>;

    closed spec fn view(&self) -> Seq<NoteRoots> {
        self.roots@
    }
}

impl HistoryTree {
    /// The history of a chain of one block, pushed with `roots`.
    pub fn from_block(roots: NoteRoots) -> (tree: HistoryTree)
        ensures
            tree@ == seq![roots],
    {
        let mut pushed: Vec<NoteRoots> = Vec::new();
        pushed.push(roots);
        assert(pushed@ =~= seq![roots]);
        HistoryTree { roots: pushed }
    }

    /// Extends the history by one block, pushed with `roots`.
    pub fn push(&mut self, roots: NoteRoots)
        ensures
            final(self)@ == old(self)@.push(roots),
    {
        self.roots.push(roots);
    }

    /// The roots that the blocks were pushed with, oldest first.
    pub fn roots(&self) -> (roots: &Vec<NoteRoots>)
        ensures
            roots@ == self@,
    {
        &self.roots
    }
}

} // verus!
