//! What the chain constructor asks of its surroundings.
//!
//! Hashing, tree digests and a transaction's value accounting are not decided
//! here. A caller supplies them through [`Collaborators`], and the rule that
//! says whether an output may be spent through a function of its own. The
//! constructor asks only that each answer is a function of the question: the
//! spec functions of this module name those answers, and every contract of the
//! crate is stated over the names.

use vstd::prelude::*;
use crate::block::{Block, BlockView, NoteRoots, blocks_view};
use crate::parameters::Digest;
use crate::transaction::{Transaction, TransactionView, transactions_view};
use crate::transparent::{
    CoinbaseSpendRestriction, OrderedUtxo, OrderedUtxoView, OutPoint, Output, OutputView,
};
use crate::value::{ValueBalance, ValueFlow, ValueFlowView};

verus! {

/// The digests and the value accounting that a chain is built with.
pub trait Collaborators {
    /// The id of `transaction`.
    fn transaction_hash(&self, transaction: &Transaction) -> Digest;

    /// The value that `transaction` can move when the chain holds `pools` and
    /// the transaction spends `spent`, together with the pools that result; or
    /// nothing, if no flow keeps the pools in order.
    fn repair_values(
        &self,
        transaction: &Transaction,
        pools: &ValueBalance,
        spent: &Vec<(OutPoint, Output)>,
    ) -> Option<(ValueFlow, ValueBalance)>;

    /// The hash of `block`.
    fn block_hash(&self, block: &Block) -> Digest;

    /// The digest of the signatures and proofs of `transactions`.
    fn auth_data_root(&self, transactions: &Vec<Transaction>) -> Digest;

    /// The digest that binds a history root to an authorizing data root.
    fn block_commitments_digest(&self, history_root: &Digest, auth_data_root: &Digest) -> Digest;

    /// The root of the Sapling note commitment tree that holds `leaves`.
    fn sapling_root(&self, leaves: &Vec<Digest>) -> Digest;

    /// The root of the Orchard note commitment tree that holds `leaves`.
    fn orchard_root(&self, leaves: &Vec<Digest>) -> Digest;

    /// The root of the history tree over `blocks`, each pushed with the note
    /// commitment roots at the same position of `roots`; or nothing, if such
    /// a tree has no root.
    fn history_root(&self, blocks: &Vec<Block>, roots: &Vec<NoteRoots>) -> Option<Digest>;
}

/// The values of the outputs that a transaction spends.
pub open spec fn spent_view(spent: Seq<(OutPoint, Output)>) -> Seq<(OutPoint, OutputView)> {
    spent.map_values(|s: (OutPoint, Output)| (s.0, s.1@))
}

/// Whether `check` lets `outpoint`, bound to `utxo`, be spent under
/// `restriction`: it never answers such a question with an error.
pub open spec fn check_accepts<T, E, F: Fn(OutPoint, CoinbaseSpendRestriction, &OrderedUtxo) -> Result<T, E>>(
    check: F,
    outpoint: OutPoint,
    restriction: CoinbaseSpendRestriction,
    utxo: OrderedUtxoView,
) -> bool {
    forall|u: OrderedUtxo, r: Result<T, E>|
        u@ == utxo && #[trigger] call_ensures(check, (outpoint, restriction, &u), r) ==> r is Ok
}

/// `check` can be asked about every output, and what it answers depends on
/// nothing but the question.
pub open spec fn check_is_pure<T, E, F: Fn(OutPoint, CoinbaseSpendRestriction, &OrderedUtxo) -> Result<T, E>>(
    check: F,
) -> bool {
    &&& forall|outpoint: OutPoint, restriction: CoinbaseSpendRestriction, u: &OrderedUtxo|
        call_requires(check, (outpoint, restriction, u))
    &&& forall|outpoint: OutPoint, restriction: CoinbaseSpendRestriction, u: &OrderedUtxo, r: Result<T, E>|
        #[trigger] call_ensures(check, (outpoint, restriction, u), r) ==> (r is Ok) == check_accepts(
            check,
            outpoint,
            restriction,
            u@,
        )
}

/// `c` may give the id `d` to a transaction of the value `transaction`.
pub open spec fn may_hash_transaction<C: Collaborators>(c: &C, transaction: TransactionView, d: Digest) -> bool {
    exists|t: Transaction| t@ == transaction && #[trigger] call_ensures(C::transaction_hash, (c, &t), d)
}

/// The id that `c` gives to `transaction`.
pub open spec fn transaction_hash_of<C: Collaborators>(c: &C, transaction: TransactionView) -> Digest {
    choose|d: Digest| may_hash_transaction(c, transaction, d)
}

/// The value of an answer of [`Collaborators::repair_values`].
pub open spec fn repair_view(r: Option<(ValueFlow, ValueBalance)>) -> Option<(ValueFlowView, ValueBalance)> {
    match r {
        Some((flow, pools)) => Some((flow@, pools)),
        None => None,
    }
}

/// `c` may answer `a` when asked to repair the values of `transaction`.
pub open spec fn may_repair<C: Collaborators>(
    c: &C,
    transaction: TransactionView,
    pools: ValueBalance,
    spent: Seq<(OutPoint, OutputView)>,
    a: Option<(ValueFlowView, ValueBalance)>,
) -> bool {
    exists|t: Transaction, s: Vec<(OutPoint, Output)>, r: Option<(ValueFlow, ValueBalance)>|
        t@ == transaction && spent_view(s@) == spent && repair_view(r) == a && #[trigger] call_ensures(
            C::repair_values,
            (c, &t, &pools, &s),
            r,
        )
}

/// What `c` answers when asked to repair the values of `transaction`.
pub open spec fn repair_of<C: Collaborators>(
    c: &C,
    transaction: TransactionView,
    pools: ValueBalance,
    spent: Seq<(OutPoint, OutputView)>,
) -> Option<(ValueFlowView, ValueBalance)> {
    choose|a: Option<(ValueFlowView, ValueBalance)>| may_repair(c, transaction, pools, spent, a)
}

/// `c` may give the hash `d` to a block of the value `block`.
pub open spec fn may_hash_block<C: Collaborators>(c: &C, block: BlockView, d: Digest) -> bool {
    exists|b: Block| b@ == block && #[trigger] call_ensures(C::block_hash, (c, &b), d)
}

/// The hash that `c` gives to `block`.
pub open spec fn block_hash_of<C: Collaborators>(c: &C, block: BlockView) -> Digest {
    choose|d: Digest| may_hash_block(c, block, d)
}

/// `c` may give the digest `d` to the signatures and proofs of `transactions`.
pub open spec fn may_digest_auth_data<C: Collaborators>(
    c: &C,
    transactions: Seq<TransactionView>,
    d: Digest,
) -> bool {
    exists|t: Vec<Transaction>|
        transactions_view(t@) == transactions && #[trigger] call_ensures(C::auth_data_root, (c, &t), d)
}

/// The digest that `c` gives to the signatures and proofs of `transactions`.
pub open spec fn auth_data_root_of<C: Collaborators>(c: &C, transactions: Seq<TransactionView>) -> Digest {
    choose|d: Digest| may_digest_auth_data(c, transactions, d)
}

/// The digest by which `c` binds `history_root` to `auth_data_root`.
pub open spec fn block_commitments_digest_of<C: Collaborators>(
    c: &C,
    history_root: Digest,
    auth_data_root: Digest,
) -> Digest {
    choose|d: Digest| call_ensures(C::block_commitments_digest, (c, &history_root, &auth_data_root), d)
}

/// `c` may give the root `d` to the Sapling tree that holds `leaves`.
pub open spec fn may_root_sapling<C: Collaborators>(c: &C, leaves: Seq<Digest>, d: Digest) -> bool {
    exists|l: Vec<Digest>| l@ == leaves && #[trigger] call_ensures(C::sapling_root, (c, &l), d)
}

/// The root that `c` gives to the Sapling tree that holds `leaves`.
pub open spec fn sapling_root_of<C: Collaborators>(c: &C, leaves: Seq<Digest>) -> Digest {
    choose|d: Digest| may_root_sapling(c, leaves, d)
}

/// `c` may give the root `d` to the Orchard tree that holds `leaves`.
pub open spec fn may_root_orchard<C: Collaborators>(c: &C, leaves: Seq<Digest>, d: Digest) -> bool {
    exists|l: Vec<Digest>| l@ == leaves && #[trigger] call_ensures(C::orchard_root, (c, &l), d)
}

/// The root that `c` gives to the Orchard tree that holds `leaves`.
pub open spec fn orchard_root_of<C: Collaborators>(c: &C, leaves: Seq<Digest>) -> Digest {
    choose|d: Digest| may_root_orchard(c, leaves, d)
}

/// `c` may give the root `d` to the history tree over `blocks` and `roots`.
pub open spec fn may_root_history<C: Collaborators>(
    c: &C,
    blocks: Seq<BlockView>,
    roots: Seq<NoteRoots>,
    d: Option<Digest>,
) -> bool {
    exists|b: Vec<Block>, r: Vec<NoteRoots>|
        blocks_view(b@) == blocks && r@ == roots && #[trigger] call_ensures(C::history_root, (c, &b, &r), d)
}

/// The root that `c` gives to the history tree over `blocks` and `roots`.
pub open spec fn history_root_of<C: Collaborators>(
    c: &C,
    blocks: Seq<BlockView>,
    roots: Seq<NoteRoots>,
) -> Option<Digest> {
    choose|d: Option<Digest>| may_root_history(c, blocks, roots, d)
}

/// Every answer of `c` is a function of the values it is asked about.
pub open spec fn deterministic<C: Collaborators>(c: &C) -> bool {
    &&& forall|t: &Transaction, d: Digest| #[trigger]
        call_ensures(C::transaction_hash, (c, t), d) ==> d == transaction_hash_of(c, t@)
    &&& forall|t: &Transaction, p: &ValueBalance, s: &Vec<(OutPoint, Output)>, r: Option<(ValueFlow, ValueBalance)>| #[trigger]
        call_ensures(C::repair_values, (c, t, p, s), r) ==> repair_view(r) == repair_of(
            c,
            t@,
            *p,
            spent_view(s@),
        )
    &&& forall|b: &Block, d: Digest| #[trigger]
        call_ensures(C::block_hash, (c, b), d) ==> d == block_hash_of(c, b@)
    &&& forall|t: &Vec<Transaction>, d: Digest| #[trigger]
        call_ensures(C::auth_data_root, (c, t), d) ==> d == auth_data_root_of(c, transactions_view(t@))
    &&& forall|h: &Digest, a: &Digest, d: Digest| #[trigger]
        call_ensures(C::block_commitments_digest, (c, h, a), d) ==> d == block_commitments_digest_of(
            c,
            *h,
            *a,
        )
    &&& forall|l: &Vec<Digest>, d: Digest| #[trigger]
        call_ensures(C::sapling_root, (c, l), d) ==> d == sapling_root_of(c, l@)
    &&& forall|l: &Vec<Digest>, d: Digest| #[trigger]
        call_ensures(C::orchard_root, (c, l), d) ==> d == orchard_root_of(c, l@)
    &&& forall|b: &Vec<Block>, r: &Vec<NoteRoots>, d: Option<Digest>| #[trigger]
        call_ensures(C::history_root, (c, b, r), d) ==> d == history_root_of(c, blocks_view(b@), r@)
}

} // verus!
