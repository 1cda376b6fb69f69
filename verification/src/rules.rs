//! The answers of a chain's surroundings, gathered as one value that the
//! specifications of the constructor are stated over.

use vstd::prelude::*;
use crate::block::{BlockView, NoteRoots};
use crate::collaborators::{
    Collaborators, auth_data_root_of, block_commitments_digest_of, block_hash_of, history_root_of, orchard_root_of, repair_of, sapling_root_of, transaction_hash_of,
};
use crate::parameters::Digest;
use crate::select::accepts_of;
use crate::transaction::TransactionView;
use crate::transparent::{CoinbaseSpendRestriction, OrderedUtxo, OrderedUtxoView, OutPoint, OutputView};
use crate::value::{ValueBalance, ValueFlowView};

verus! {

/// Every function that a chain is built with.
pub struct Rules {
    /// Whether an output may be spent under a restriction.
    pub accepts: spec_fn(OutPoint, CoinbaseSpendRestriction, OrderedUtxoView) -> bool,
    /// The id of a transaction.
    pub transaction_hash: spec_fn(TransactionView) -> Digest,
    /// The value that a transaction can move, and the pools that result.
    pub repair: spec_fn(TransactionView, ValueBalance, Seq<(OutPoint, OutputView)>) -> Option<
        (ValueFlowView, ValueBalance),
    >,
    /// The hash of a block.
    pub block_hash: spec_fn(BlockView) -> Digest,
    /// The digest of the signatures and proofs of some transactions.
    pub auth_data_root: spec_fn(Seq<TransactionView>) -> Digest,
    /// The digest that binds a history root to an authorizing data root.
    pub block_commitments_digest: spec_fn(Digest, Digest) -> Digest,
    /// The root of the Sapling tree that holds some leaves.
    pub sapling_root: spec_fn(Seq<Digest>) -> Digest,
    /// The root of the Orchard tree that holds some leaves.
    pub orchard_root: spec_fn(Seq<Digest>) -> Digest,
    /// The root of the history tree over some blocks and their note roots.
    pub history_root: spec_fn(Seq<BlockView>, Seq<NoteRoots>) -> Option<Digest>,
}

/// The functions that `c` and `check` compute.
pub open spec fn rules_of<C: Collaborators, T, E, F: Fn(OutPoint, CoinbaseSpendRestriction, &OrderedUtxo) -> Result<T, E>>(
    c: &C,
    check: F,
) -> Rules {
    Rules {
        accepts: accepts_of(check),
        transaction_hash: |t: TransactionView| transaction_hash_of(c, t),
        repair: |t: TransactionView, pools: ValueBalance, spent: Seq<(OutPoint, OutputView)>|
            repair_of(c, t, pools, spent),
        block_hash: |b: BlockView| block_hash_of(c, b),
        auth_data_root: |t: Seq<TransactionView>| auth_data_root_of(c, t),
        block_commitments_digest: |history_root: Digest, auth_data_root: Digest|
            block_commitments_digest_of(c, history_root, auth_data_root),
        sapling_root: |leaves: Seq<Digest>| sapling_root_of(c, leaves),
        orchard_root: |leaves: Seq<Digest>| orchard_root_of(c, leaves),
        history_root: |blocks: Seq<BlockView>, roots: Seq<NoteRoots>| history_root_of(c, blocks, roots),
    }
}

} // verus!
