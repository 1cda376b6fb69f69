//! The set of unspent transparent outputs, keyed by outpoint.
//!
//! The ledger keeps its entries in the order in which their keys first
//! arrived, so walking it is a function of what was put into it.

use vstd::prelude::*;
use crate::parameters::{Digest, Height};
use crate::transaction::Transaction;
use crate::transparent::{OrderedUtxo, OrderedUtxoView, OutPoint, OutputView, UtxoView};

verus! {

/// The mathematical value of a [`Ledger`]: its entries in walking order.
pub type Entries = Seq<(OutPoint, OrderedUtxoView)>;

/// Whether some entry has the key `outpoint`.
pub open spec fn has_key(entries: Entries, outpoint: OutPoint) -> bool {
    exists|i: int| 0 <= i < entries.len() && (#[trigger] entries[i]).0 == outpoint
}

/// The position of the entry with the key `outpoint`.
pub open spec fn key_index(entries: Entries, outpoint: OutPoint) -> int {
    choose|i: int| 0 <= i < entries.len() && (#[trigger] entries[i]).0 == outpoint
}

/// No key occurs twice.
pub open spec fn distinct_keys(entries: Entries) -> bool {
    forall|i: int, j: int|
        0 <= i < j < entries.len() ==> (#[trigger] entries[i]).0 != (#[trigger] entries[j]).0
}

/// The entries after `outpoint` is bound to `utxo`: a key that is present
/// keeps its place, a new key goes to the end.
pub open spec fn inserted(entries: Entries, outpoint: OutPoint, utxo: OrderedUtxoView) -> Entries {
    if has_key(entries, outpoint) {
        entries.update(key_index(entries, outpoint), (outpoint, utxo))
    } else {
        entries.push((outpoint, utxo))
    }
}

/// The entries after the one with the key `outpoint` is taken out.
pub open spec fn removed(entries: Entries, outpoint: OutPoint) -> Entries {
    entries.remove(key_index(entries, outpoint))
}

/// The entries as a map from outpoint to unspent output.
pub open spec fn as_map(entries: Entries) -> Map<OutPoint, OrderedUtxoView> {
    Map::new(
        |outpoint: OutPoint| has_key(entries, outpoint),
        |outpoint: OutPoint| entries[key_index(entries, outpoint)].1,
    )
}

/// With distinct keys, the position of a key is the one place where it stands.
pub proof fn lemma_key_index(entries: Entries, i: int)
    requires
        distinct_keys(entries),
        0 <= i < entries.len(),
    ensures
        has_key(entries, entries[i].0),
        key_index(entries, entries[i].0) == i,
{
    let k = key_index(entries, entries[i].0);
    if k < i {
        assert(entries[k].0 != entries[i].0);
    } else if i < k {
        assert(entries[i].0 != entries[k].0);
    }
}

/// Binding a key keeps the keys distinct, makes the key present with the new
/// value and leaves every other key as it was.
pub proof fn lemma_inserted(entries: Entries, outpoint: OutPoint, utxo: OrderedUtxoView)
    requires
        distinct_keys(entries),
    ensures
        distinct_keys(inserted(entries, outpoint, utxo)),
        as_map(inserted(entries, outpoint, utxo)) == as_map(entries).insert(outpoint, utxo),
{
    let after = inserted(entries, outpoint, utxo);
    let at = if has_key(entries, outpoint) {
        key_index(entries, outpoint)
    } else {
        entries.len() as int
    };
    assert(after[at] == (outpoint, utxo));
    assert forall|i: int, j: int| 0 <= i < j < after.len() implies (#[trigger] after[i]).0 != (
    #[trigger] after[j]).0 by {
        if has_key(entries, outpoint) {
            assert(entries[i].0 != entries[j].0);
        } else if j == entries.len() {
            assert(entries[i].0 != outpoint);
        } else {
            assert(entries[i].0 != entries[j].0);
        }
    }
    lemma_key_index(after, at);
    assert forall|k: OutPoint| #[trigger] has_key(after, k) == (k == outpoint || has_key(entries, k)) by {
        if has_key(after, k) {
            let i = key_index(after, k);
            if k != outpoint {
                assert(entries[i].0 == k);
            }
        }
        if has_key(entries, k) {
            let i = key_index(entries, k);
            assert(after[i].0 == k);
        }
    }
    assert forall|k: OutPoint| k != outpoint && has_key(entries, k) implies after[key_index(after, k)].1
        == entries[key_index(entries, k)].1 by {
        let i = key_index(entries, k);
        assert(after[i].0 == k);
        lemma_key_index(after, i);
    }
    assert(as_map(after) =~= as_map(entries).insert(outpoint, utxo));
}

/// Taking a present key out keeps the keys distinct, makes the key absent and
/// leaves every other key as it was.
pub proof fn lemma_removed(entries: Entries, outpoint: OutPoint)
    requires
        distinct_keys(entries),
        has_key(entries, outpoint),
    ensures
        distinct_keys(removed(entries, outpoint)),
        !has_key(removed(entries, outpoint), outpoint),
        as_map(removed(entries, outpoint)) == as_map(entries).remove(outpoint),
{
    let at = key_index(entries, outpoint);
    let after = removed(entries, outpoint);
    assert forall|i: int| 0 <= i < after.len() implies #[trigger] after[i] == entries[if i < at {
        i
    } else {
        i + 1
    }] by {}
    assert forall|i: int, j: int| 0 <= i < j < after.len() implies (#[trigger] after[i]).0 != (
    #[trigger] after[j]).0 by {
        let a = if i < at { i } else { i + 1 };
        let b = if j < at { j } else { j + 1 };
        assert(entries[a].0 != entries[b].0);
    }
    assert forall|k: OutPoint| #[trigger] has_key(after, k) == (k != outpoint && has_key(entries, k)) by {
        if has_key(after, k) {
            let i = key_index(after, k);
            let a = if i < at { i } else { i + 1 };
            assert(entries[a].0 == k);
            lemma_key_index(entries, a);
            lemma_key_index(entries, at);
        }
        if k != outpoint && has_key(entries, k) {
            let a = key_index(entries, k);
            let i = if a < at { a } else { a - 1 };
            assert(after[i].0 == k);
        }
    }
    assert forall|k: OutPoint| k != outpoint && has_key(entries, k) implies after[key_index(after, k)].1
        == entries[key_index(entries, k)].1 by {
        let a = key_index(entries, k);
        let i = if a < at { a } else { a - 1 };
        assert(after[i].0 == k);
        lemma_key_index(after, i);
    }
    assert(as_map(after) =~= as_map(entries).remove(outpoint));
}

/// The entry that the output at `index` of a transaction makes: the outpoint
/// that names it, and the output as it stands unspent.
pub open spec fn created(
    outputs: Seq<OutputView>,
    index: int,
    hash: Digest,
    height: Height,
    from_coinbase: bool,
    tx_index_in_block: usize,
) -> (OutPoint, OrderedUtxoView) {
    (
        OutPoint { hash, index: index as u32 },
        OrderedUtxoView {
            utxo: UtxoView { output: outputs[index], height, from_coinbase },
            tx_index_in_block,
        },
    )
}

/// The entries after the first `n` of `outputs` are bound, in order, to
/// their outpoints in the transaction with the id `hash`.
pub open spec fn recorded(
    entries: Entries,
    outputs: Seq<OutputView>,
    hash: Digest,
    height: Height,
    from_coinbase: bool,
    tx_index_in_block: usize,
    n: nat,
) -> Entries
    decreases n,
{
    if n == 0 {
        entries
    } else {
        let made = created(outputs, n - 1, hash, height, from_coinbase, tx_index_in_block);
        inserted(
            recorded(entries, outputs, hash, height, from_coinbase, tx_index_in_block, (n - 1) as nat),
            made.0,
            made.1,
        )
    }
}

/// Recording outputs keeps the keys distinct. Afterwards the unspent
/// outpoints are those that were unspent before and those of the recorded
/// outputs.
pub proof fn lemma_recorded(
    entries: Entries,
    outputs: Seq<OutputView>,
    hash: Digest,
    height: Height,
    from_coinbase: bool,
    tx_index_in_block: usize,
    n: nat,
)
    requires
        distinct_keys(entries),
        n <= u32::MAX,
    ensures
        distinct_keys(recorded(entries, outputs, hash, height, from_coinbase, tx_index_in_block, n)),
        forall|outpoint: OutPoint| #[trigger]
            has_key(
                recorded(entries, outputs, hash, height, from_coinbase, tx_index_in_block, n),
                outpoint,
            ) == (has_key(entries, outpoint) || (outpoint.hash == hash && outpoint.index < n)),
    decreases n,
{
    if n > 0 {
        let before = recorded(
            entries,
            outputs,
            hash,
            height,
            from_coinbase,
            tx_index_in_block,
            (n - 1) as nat,
        );
        let made = created(outputs, n - 1, hash, height, from_coinbase, tx_index_in_block);
        lemma_recorded(entries, outputs, hash, height, from_coinbase, tx_index_in_block, (n - 1) as nat);
        lemma_inserted(before, made.0, made.1);
        let after = inserted(before, made.0, made.1);
        assert forall|outpoint: OutPoint| #[trigger]
            has_key(after, outpoint) == (has_key(entries, outpoint) || (outpoint.hash == hash
                && outpoint.index < n)) by {
            assert(as_map(after).dom().contains(outpoint) == has_key(after, outpoint));
            assert(as_map(before).dom().contains(outpoint) == has_key(before, outpoint));
            if outpoint.hash == hash && outpoint.index == n - 1 {
                assert(outpoint =~= made.0);
            }
        }
    }
}

/// The unspent transparent outputs of a chain under construction.
#[derive(Clone, Debug)]
pub struct Ledger {
    entries: Vec<(OutPoint, OrderedUtxo)>,
}

impl View for Ledger {
    type V = Entries;

    closed spec fn view(&self) -> Entries {
        self.entries@.map_values(|e: (OutPoint, OrderedUtxo)| (e.0, e.1@))
    }
}

impl Ledger {
    /// Every ledger holds each outpoint at most once.
    pub open spec fn wf(&self) -> bool {
        distinct_keys(self@)
    }

    /// Whether `outpoint` is unspent.
    pub open spec fn contains(&self, outpoint: OutPoint) -> bool {
        has_key(self@, outpoint)
    }

    /// A ledger without entries.
    pub fn new() -> (ledger: Ledger)
        ensures
            ledger@ == Seq::<(OutPoint, OrderedUtxoView)>::empty(),
            ledger.wf(),
    {
        let ledger = Ledger { entries: Vec::new() };
        assert(ledger@ =~= Seq::<(OutPoint, OrderedUtxoView)>::empty());
        ledger
    }

    /// The number of unspent outputs.
    pub fn len(&self) -> (n: usize)
        ensures
            n == self@.len(),
    {
        self.entries.len()
    }

    /// Whether there is no unspent output.
    pub fn is_empty(&self) -> (empty: bool)
        ensures
            empty == (self@.len() == 0),
    {
        self.entries.len() == 0
    }

    /// The outpoint at `position` in walking order.
    pub fn outpoint_at(&self, position: usize) -> (outpoint: OutPoint)
        requires
            position < self@.len(),
        ensures
            outpoint == self@[position as int].0,
    {
        self.entries[position].0
    }

    /// The unspent output at `position` in walking order.
    pub fn utxo_at(&self, position: usize) -> (utxo: &OrderedUtxo)
        requires
            position < self@.len(),
        ensures
            utxo@ == self@[position as int].1,
    {
        &self.entries[position].1
    }

    /// The first place at which `outpoint` stands in walking order, if it is
    /// unspent.
    pub fn position(&self, outpoint: &OutPoint) -> (found: Option<usize>)
        ensures
            match found {
                Some(i) => {
                    &&& i < self@.len()
                    &&& self@[i as int].0 == *outpoint
                    &&& forall|j: int| 0 <= j < i ==> (#[trigger] self@[j]).0 != *outpoint
                },
                None => !self.contains(*outpoint),
            },
    {
        let mut i: usize = 0;
        while i < self.entries.len()
            invariant
                i <= self.entries.len(),
                forall|j: int| 0 <= j < i ==> (#[trigger] self@[j]).0 != *outpoint,
            decreases self.entries.len() - i,
        {
            if self.entries[i].0.same(outpoint) {
                return Some(i);
            }
            i += 1;
        }
        None
    }

    /// Whether `outpoint` is unspent.
    pub fn contains_key(&self, outpoint: &OutPoint) -> (present: bool)
        ensures
            present == self.contains(*outpoint),
    {
        self.position(outpoint).is_some()
    }

    /// Binds `outpoint` to `utxo`, replacing what it was bound to.
    pub fn insert(&mut self, outpoint: OutPoint, utxo: OrderedUtxo)
        requires
            old(self).wf(),
        ensures
            final(self).wf(),
            final(self)@ == inserted(old(self)@, outpoint, utxo@),
            as_map(final(self)@) == as_map(old(self)@).insert(outpoint, utxo@),
    {
        proof {
            lemma_inserted(self@, outpoint, utxo@);
        }
        match self.position(&outpoint) {
            Some(i) => {
                proof {
                    lemma_key_index(self@, i as int);
                }
                self.entries.set(i, (outpoint, utxo));
                assert(self@ =~= inserted(old(self)@, outpoint, utxo@));
            },
            None => {
                self.entries.push((outpoint, utxo));
                assert(self@ =~= inserted(old(self)@, outpoint, utxo@));
            },
        }
    }

    /// Takes `outpoint` out of the ledger and returns what it was bound to.
    pub fn remove(&mut self, outpoint: &OutPoint) -> (utxo: OrderedUtxo)
        requires
            old(self).wf(),
            old(self).contains(*outpoint),
        ensures
            final(self).wf(),
            final(self)@ == removed(old(self)@, *outpoint),
            utxo@ == old(self)@[key_index(old(self)@, *outpoint)].1,
            !final(self).contains(*outpoint),
            as_map(final(self)@) == as_map(old(self)@).remove(*outpoint),
    {
        proof {
            lemma_removed(self@, *outpoint);
        }
        let found = self.position(outpoint);
        let i: usize = found.unwrap();
        proof {
            lemma_key_index(self@, i as int);
        }
        let entry = self.entries.remove(i);
        assert(self@ =~= removed(old(self)@, *outpoint));
        entry.1
    }

    /// Records every transparent output of `transaction` as unspent, under
    /// the outpoint that names it: the id `hash` and the output's position.
    /// Each entry says that the output was created at `height` by the
    /// transaction at `tx_index_in_block`, and whether that transaction is a
    /// coinbase transaction.
    pub fn record(&mut self, transaction: &Transaction, hash: Digest, tx_index_in_block: usize, height: Height)
        requires
            old(self).wf(),
            transaction@.outputs.len() <= u32::MAX,
        ensures
            final(self).wf(),
            final(self)@ == recorded(
                old(self)@,
                transaction@.outputs,
                hash,
                height,
                transaction@.is_coinbase(),
                tx_index_in_block,
                transaction@.outputs.len(),
            ),
    {
        let from_coinbase = transaction.is_coinbase();
        let mut i: usize = 0;
        while i < transaction.outputs.len()
            invariant
                i <= transaction.outputs.len(),
                transaction@.outputs.len() == transaction.outputs.len(),
                transaction@.outputs.len() <= u32::MAX,
                from_coinbase == transaction@.is_coinbase(),
                self.wf(),
                self@ == recorded(
                    old(self)@,
                    transaction@.outputs,
                    hash,
                    height,
                    from_coinbase,
                    tx_index_in_block,
                    i as nat,
                ),
            decreases transaction.outputs.len() - i,
        {
            let output = transaction.outputs[i].duplicate();
            let outpoint = OutPoint { hash, index: i as u32 };
            self.insert(outpoint, OrderedUtxo::new(output, height, from_coinbase, tx_index_in_block));
            i += 1;
        }
    }
}

} // verus!
