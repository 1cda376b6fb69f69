//! Repairing a sequence of candidate blocks into a chain.

use vstd::prelude::*;
use crate::block::{Block, BlockView, HeaderView, NoteRoots, blocks_view};
use crate::collaborators::{
    Collaborators, check_is_pure, deterministic, orchard_root_of, sapling_root_of,
};
use crate::commitment::{CommitmentKind, commitment_kind, encode_commitment, encoded, kind_at};
use crate::fix::{Fatal, fix_generated_transaction, fixed};
use crate::ledger::{Entries, Ledger};
use crate::ledger_state::LedgerState;
use crate::parameters::{Digest, Height, Network, zero_digest, zeroed};
use crate::rules::{Rules, rules_of};
use crate::transaction::{Transaction, TransactionView, transactions_view};
use crate::transparent::{CoinbaseSpendRestriction, OrderedUtxo, OutPoint};
use crate::tree::{HistoryTree, NOTE_TREE_CAPACITY, NoteCommitmentTree, append_all, appended};
use crate::value::ValueBalance;

verus! {

/// The length of a chain in which most runs spend an output that an earlier
/// spend created.
pub const PREVOUTS_CHAIN_HEIGHT: usize = 4;

/// The usual number of candidate blocks: long enough for a coinbase output
/// of the first block to mature, and for spends of spends behind it.
pub const MAX_PARTIAL_CHAIN_BLOCKS: usize = 104;

/// What the repair of a block has reached: the transactions that were kept
/// so far, the unspent outputs, the value pools, and the leaves of the two
/// note commitment trees with the number of leaves that each tree takes.
pub struct BlockState {
    pub kept: Seq<TransactionView>,
    pub entries: Entries,
    pub pools: ValueBalance,
    pub sapling: Seq<Digest>,
    pub orchard: Seq<Digest>,
    pub sapling_capacity: nat,
    pub orchard_capacity: nat,
}

/// What the construction of a chain has reached: the repaired blocks, the
/// hash of the last of them, the unspent outputs, the value pools, the
/// leaves of the two note commitment trees, and the note roots that the
/// history tree holds, once it exists.
pub struct ChainState {
    pub blocks: Seq<BlockView>,
    pub previous_block_hash: Option<Digest>,
    pub entries: Entries,
    pub pools: ValueBalance,
    pub sapling: Seq<Digest>,
    pub orchard: Seq<Digest>,
    pub history: Option<Seq<NoteRoots>>,
}

/// The state before the first block: nothing is unspent, the pools and the
/// trees are empty, and there is no history tree yet.
pub open spec fn chain_start() -> ChainState {
    ChainState {
        blocks: Seq::empty(),
        previous_block_hash: None,
        entries: Seq::empty(),
        pools: ValueBalance { transparent: 0, sprout: 0, sapling: 0, orchard: 0 },
        sapling: Seq::empty(),
        orchard: Seq::empty(),
        history: None,
    }
}

/// The state after `transaction`, which stands at `tx_index_in_block` in the
/// block at `height`, is repaired. A kept transaction follows those kept
/// before it; where `fold` is set, its note commitments go into the trees,
/// Sapling first, and a full tree ends the construction.
pub open spec fn fix_next(
    rules: Rules,
    state: BlockState,
    transaction: TransactionView,
    tx_index_in_block: usize,
    height: Height,
    fold: bool,
) -> Result<BlockState, Fatal> {
    match fixed(rules, transaction, tx_index_in_block, height, state.pools, state.entries) {
        Err(fatal) => Err(fatal),
        Ok(left) => match left.kept {
            None => Ok(BlockState { entries: left.entries, pools: left.pools, ..state }),
            Some(kept) => {
                let sapling = if fold {
                    appended(state.sapling, state.sapling_capacity, kept.sapling.note_commitments)
                } else {
                    Some(state.sapling)
                };
                let orchard = if fold {
                    appended(state.orchard, state.orchard_capacity, kept.orchard.note_commitments)
                } else {
                    Some(state.orchard)
                };
                if sapling is Some && orchard is Some {
                    Ok(
                        BlockState {
                            kept: state.kept.push(kept),
                            entries: left.entries,
                            pools: left.pools,
                            sapling: sapling->Some_0,
                            orchard: orchard->Some_0,
                            ..state
                        },
                    )
                } else {
                    Err(Fatal::TreeFull { height, tx_index_in_block })
                }
            },
        },
    }
}

/// The state after the first `n` of `transactions` are repaired, in order;
/// or the reason for which the construction ended at one of them.
pub open spec fn fix_transactions(
    rules: Rules,
    transactions: Seq<TransactionView>,
    height: Height,
    start: BlockState,
    fold: bool,
    n: nat,
) -> Result<BlockState, Fatal>
    decreases n,
{
    if n == 0 {
        Ok(start)
    } else {
        match fix_transactions(rules, transactions, height, start, fold, (n - 1) as nat) {
            Err(fatal) => Err(fatal),
            Ok(state) => fix_next(rules, state, transactions[n - 1], (n - 1) as usize, height, fold),
        }
    }
}

/// The root of the history tree of `state`: the root over the blocks so far
/// and their note roots, or all zeroes where there is no tree yet or the
/// tree has no root.
pub open spec fn history_root_before(rules: Rules, state: ChainState) -> Digest {
    match state.history {
        Some(roots) => match (rules.history_root)(state.blocks, roots) {
            Some(root) => root,
            None => zeroed(),
        },
        None => zeroed(),
    }
}

/// The commitment of the header of a block at `height` that follows `state`
/// and keeps the transactions `kept`.
pub open spec fn commitment_for(
    rules: Rules,
    network: Network,
    height: Height,
    state: ChainState,
    kept: Seq<TransactionView>,
) -> Digest {
    let history_root = history_root_before(rules, state);
    encoded(
        commitment_kind(network, height),
        history_root,
        (rules.block_commitments_digest)(history_root, (rules.auth_data_root)(kept)),
    )
}

/// The state in which the repair of a block that follows `state` begins.
/// Each tree takes [`NOTE_TREE_CAPACITY`] leaves.
pub open spec fn block_start(state: ChainState) -> BlockState {
    BlockState {
        kept: Seq::empty(),
        entries: state.entries,
        pools: state.pools,
        sapling: state.sapling,
        orchard: state.orchard,
        sapling_capacity: NOTE_TREE_CAPACITY as nat,
        orchard_capacity: NOTE_TREE_CAPACITY as nat,
    }
}

/// The block that `candidate` becomes at `height` behind `state`, when its
/// repaired transactions are `kept`. It follows the last block, if there is
/// one. With `generate_valid_commitments` its header carries the commitment
/// of [`commitment_for`]; without, the candidate's.
pub open spec fn repaired_block(
    rules: Rules,
    network: Network,
    state: ChainState,
    candidate: BlockView,
    height: Height,
    generate_valid_commitments: bool,
    kept: Seq<TransactionView>,
) -> BlockView {
    BlockView {
        header: HeaderView {
            previous_block_hash: match state.previous_block_hash {
                Some(hash) => hash,
                None => candidate.header.previous_block_hash,
            },
            commitment_bytes: if generate_valid_commitments {
                commitment_for(rules, network, height, state, kept)
            } else {
                candidate.header.commitment_bytes
            },
            ..candidate.header
        },
        transactions: kept,
    }
}

/// The state after `candidate` is repaired as the block at `height`.
///
/// Its transactions are repaired in order; above height zero, and with
/// `generate_valid_commitments`, the note commitments of those that are kept
/// go into the trees. The block is then pushed into the history tree. The
/// first block makes the tree, with the note roots after its own
/// commitments; every later block is pushed with the note roots before its
/// own commitments. Without `generate_valid_commitments` there is no history
/// tree.
pub open spec fn fix_block(
    rules: Rules,
    network: Network,
    state: ChainState,
    candidate: BlockView,
    height: Height,
    generate_valid_commitments: bool,
) -> Result<ChainState, Fatal> {
    match fix_transactions(
        rules,
        candidate.transactions,
        height,
        block_start(state),
        generate_valid_commitments && height.0 != 0,
        candidate.transactions.len(),
    ) {
        Err(fatal) => Err(fatal),
        Ok(after) => {
            let block = repaired_block(
                rules,
                network,
                state,
                candidate,
                height,
                generate_valid_commitments,
                after.kept,
            );
            Ok(
                ChainState {
                    blocks: state.blocks.push(block),
                    previous_block_hash: Some((rules.block_hash)(block)),
                    entries: after.entries,
                    pools: after.pools,
                    sapling: after.sapling,
                    orchard: after.orchard,
                    history: if generate_valid_commitments {
                        Some(
                            match state.history {
                                Some(roots) => roots.push(
                                    NoteRoots {
                                        sapling: (rules.sapling_root)(state.sapling),
                                        orchard: (rules.orchard_root)(state.orchard),
                                    },
                                ),
                                None => seq![
                                    NoteRoots {
                                        sapling: (rules.sapling_root)(after.sapling),
                                        orchard: (rules.orchard_root)(after.orchard),
                                    },
                                ],
                            },
                        )
                    } else {
                        None
                    },
                },
            )
        },
    }
}

/// The height of the block at `position` of a chain whose first block has
/// the height `first`.
pub open spec fn height_at(first: Height, position: int) -> Height {
    Height((first.0 + position) as u32)
}

/// The state after the first `n` of `candidates` are repaired, as blocks of
/// rising height from `first` on; or the reason for which the construction
/// ended at one of them.
pub open spec fn built(
    rules: Rules,
    network: Network,
    first: Height,
    candidates: Seq<BlockView>,
    generate_valid_commitments: bool,
    n: nat,
) -> Result<ChainState, Fatal>
    decreases n,
{
    if n == 0 {
        Ok(chain_start())
    } else {
        match built(rules, network, first, candidates, generate_valid_commitments, (n - 1) as nat) {
            Err(fatal) => Err(fatal),
            Ok(state) => fix_block(
                rules,
                network,
                state,
                candidates[n - 1],
                height_at(first, n - 1),
                generate_valid_commitments,
            ),
        }
    }
}

/// The chain that `candidates` are repaired into, or the reason for which
/// the construction ended.
pub open spec fn chain_of(
    rules: Rules,
    network: Network,
    first: Height,
    candidates: Seq<BlockView>,
    generate_valid_commitments: bool,
) -> Result<Seq<BlockView>, Fatal> {
    match built(rules, network, first, candidates, generate_valid_commitments, candidates.len()) {
        Ok(state) => Ok(state.blocks),
        Err(fatal) => Err(fatal),
    }
}

/// The value of the outcome of a construction.
pub open spec fn chain_view(chain: Result<Vec<Block>, Fatal>) -> Result<Seq<BlockView>, Fatal> {
    match chain {
        Ok(blocks) => Ok(blocks_view(blocks@)),
        Err(fatal) => Err(fatal),
    }
}

/// Every transaction has few enough transparent outputs for each to have an
/// outpoint.
pub open spec fn outputs_have_outpoints(transactions: Seq<TransactionView>) -> bool {
    forall|k: int| 0 <= k < transactions.len() ==> (#[trigger] transactions[k]).outputs.len() <= u32::MAX
}

/// Every transaction of every block has few enough transparent outputs for
/// each to have an outpoint.
pub open spec fn blocks_have_outpoints(blocks: Seq<BlockView>) -> bool {
    forall|k: int| 0 <= k < blocks.len() ==> outputs_have_outpoints((#[trigger] blocks[k]).transactions)
}

/// Once the construction has ended at a transaction, it has ended.
pub proof fn lemma_fix_transactions_ended(
    rules: Rules,
    transactions: Seq<TransactionView>,
    height: Height,
    start: BlockState,
    fold: bool,
    n: nat,
    m: nat,
)
    requires
        n <= m,
        fix_transactions(rules, transactions, height, start, fold, n) is Err,
    ensures
        fix_transactions(rules, transactions, height, start, fold, m) == fix_transactions(
            rules,
            transactions,
            height,
            start,
            fold,
            n,
        ),
    decreases m,
{
    if n < m {
        lemma_fix_transactions_ended(rules, transactions, height, start, fold, n, (m - 1) as nat);
    }
}

/// Once the construction has ended at a block, it has ended.
pub proof fn lemma_built_ended(
    rules: Rules,
    network: Network,
    first: Height,
    candidates: Seq<BlockView>,
    generate_valid_commitments: bool,
    n: nat,
    m: nat,
)
    requires
        n <= m,
        built(rules, network, first, candidates, generate_valid_commitments, n) is Err,
    ensures
        built(rules, network, first, candidates, generate_valid_commitments, m) == built(
            rules,
            network,
            first,
            candidates,
            generate_valid_commitments,
            n,
        ),
    decreases m,
{
    if n < m {
        lemma_built_ended(
            rules,
            network,
            first,
            candidates,
            generate_valid_commitments,
            n,
            (m - 1) as nat,
        );
    }
}

/// Repairs the transactions of the block at `height`, in order, and returns
/// those that are kept.
///
/// Each transaction is repaired against `utxos` and `chain_value_pools` as
/// the transactions before it left them. Where `fold` is set, the note
/// commitments of each kept transaction go into `sapling` and `orchard`. The
/// construction ends at the first transaction whose values cannot be
/// repaired, or whose commitments a full tree refuses.
pub fn repair_transactions<C, T, E, F>(
    transactions: Vec<Transaction>,
    height: Height,
    chain_value_pools: &mut ValueBalance,
    utxos: &mut Ledger,
    sapling: &mut NoteCommitmentTree,
    orchard: &mut NoteCommitmentTree,
    fold: bool,
    check_transparent_coinbase_spend: F,
    collaborators: &C,
) -> (outcome: Result<Vec<Transaction>, Fatal>) where
    C: Collaborators,
    F: Fn(OutPoint, CoinbaseSpendRestriction, &OrderedUtxo) -> Result<T, E> + Copy,

    requires
        old(utxos).wf(),
        old(sapling).wf(),
        old(orchard).wf(),
        outputs_have_outpoints(transactions_view(transactions@)),
        check_is_pure(check_transparent_coinbase_spend),
        deterministic(collaborators),
    ensures
        final(utxos).wf(),
        final(sapling).wf(),
        final(orchard).wf(),
        final(sapling).capacity() == old(sapling).capacity(),
        final(orchard).capacity() == old(orchard).capacity(),
        old(chain_value_pools).non_negative() ==> final(chain_value_pools).non_negative(),
        match fix_transactions(
            rules_of(collaborators, check_transparent_coinbase_spend),
            transactions_view(transactions@),
            height,
            BlockState {
                kept: Seq::empty(),
                entries: old(utxos)@,
                pools: *old(chain_value_pools),
                sapling: old(sapling)@,
                orchard: old(orchard)@,
                sapling_capacity: old(sapling).capacity(),
                orchard_capacity: old(orchard).capacity(),
            },
            fold,
            transactions@.len(),
        ) {
            Ok(after) => {
                &&& outcome matches Ok(kept)
                &&& transactions_view(kept@) == after.kept
                &&& final(utxos)@ == after.entries
                &&& *final(chain_value_pools) == after.pools
                &&& final(sapling)@ == after.sapling
                &&& final(orchard)@ == after.orchard
            },
            Err(fatal) => outcome == Err::<Vec<Transaction>, Fatal>(fatal),
        },
{
    let ghost rules = rules_of(collaborators, check_transparent_coinbase_spend);
    let ghost given = transactions@;
    let ghost all = transactions_view(given);
    let ghost start = BlockState {
        kept: Seq::empty(),
        entries: utxos@,
        pools: *chain_value_pools,
        sapling: sapling@,
        orchard: orchard@,
        sapling_capacity: sapling.capacity(),
        orchard_capacity: orchard.capacity(),
    };
    let count: usize = transactions.len();
    let mut new_transactions: Vec<Transaction> = Vec::new();
    let mut tx_index_in_block: usize = 0;
    assert(transactions_view(new_transactions@) =~= Seq::<TransactionView>::empty());
    for transaction in iter: transactions
        invariant
            iter.seq() == given,
            given.len() == count,
            start == (BlockState {
                kept: Seq::empty(),
                entries: old(utxos)@,
                pools: *old(chain_value_pools),
                sapling: old(sapling)@,
                orchard: old(orchard)@,
                sapling_capacity: old(sapling).capacity(),
                orchard_capacity: old(orchard).capacity(),
            }),
            all == transactions_view(given),
            outputs_have_outpoints(all),
            tx_index_in_block == iter.index(),
            rules == rules_of(collaborators, check_transparent_coinbase_spend),
            check_is_pure(check_transparent_coinbase_spend),
            deterministic(collaborators),
            utxos.wf(),
            sapling.wf(),
            orchard.wf(),
            sapling.capacity() == old(sapling).capacity(),
            orchard.capacity() == old(orchard).capacity(),
            old(chain_value_pools).non_negative() ==> chain_value_pools.non_negative(),
            fix_transactions(rules, all, height, start, fold, iter.index() as nat) == Ok::<
                BlockState,
                Fatal,
            >(
                BlockState {
                    kept: transactions_view(new_transactions@),
                    entries: utxos@,
                    pools: *chain_value_pools,
                    sapling: sapling@,
                    orchard: orchard@,
                    sapling_capacity: old(sapling).capacity(),
                    orchard_capacity: old(orchard).capacity(),
                },
            ),
    {
        let ghost k = iter.index();
        assert(0 <= k < given.len());
        assert(all[k] == transaction@);
        let ghost before = transactions_view(new_transactions@);
        let fixed_transaction = fix_generated_transaction(
            transaction,
            tx_index_in_block,
            height,
            chain_value_pools,
            utxos,
            check_transparent_coinbase_spend,
            collaborators,
        );
        match fixed_transaction {
            Err(fatal) => {
                proof {
                    lemma_fix_transactions_ended(
                        rules,
                        all,
                        height,
                        start,
                        fold,
                        (k + 1) as nat,
                        given.len(),
                    );
                }
                return Err(fatal);
            },
            Ok(None) => {},
            Ok(Some(kept)) => {
                if fold {
                    let sapling_taken = append_all(sapling, &kept.sapling.note_commitments);
                    let orchard_taken = sapling_taken && append_all(orchard, &kept.orchard.note_commitments);
                    if !orchard_taken {
                        proof {
                            lemma_fix_transactions_ended(
                                rules,
                                all,
                                height,
                                start,
                                fold,
                                (k + 1) as nat,
                                given.len(),
                            );
                        }
                        return Err(Fatal::TreeFull { height, tx_index_in_block });
                    }
                }
                new_transactions.push(kept);
                assert(transactions_view(new_transactions@) =~= before.push(kept@));
            },
        }
        tx_index_in_block += 1;
    }
    Ok(new_transactions)
}

/// The note roots that a history tree holds, if there is one.
pub open spec fn history_view(history: Option<HistoryTree>) -> Option<Seq<NoteRoots>> {
    match history {
        Some(tree) => Some(tree@),
        None => None,
    }
}

/// The roots of the two note commitment trees as they stand.
fn note_roots<C: Collaborators>(
    collaborators: &C,
    sapling: &NoteCommitmentTree,
    orchard: &NoteCommitmentTree,
) -> (roots: NoteRoots)
    requires
        deterministic(collaborators),
    ensures
        roots.sapling == sapling_root_of(collaborators, sapling@),
        roots.orchard == orchard_root_of(collaborators, orchard@),
{
    NoteRoots {
        sapling: collaborators.sapling_root(sapling.leaves()),
        orchard: collaborators.orchard_root(orchard.leaves()),
    }
}

impl Block {
    /// Repairs `candidates` into a chain of blocks of rising height, the
    /// first of them at the height of `current`.
    ///
    /// Each block follows the one before it: it carries that block's hash as
    /// its previous-block hash, and the first block keeps its own. Its
    /// transactions are repaired in order against the unspent outputs and
    /// the value pools that the blocks before it left, and those that end
    /// without any input are dropped. With `generate_valid_commitments` each
    /// header carries the commitment that the network of `current` asks for
    /// at its height, computed from the history of the blocks before it.
    ///
    /// The construction ends without a chain where the values of a
    /// transaction cannot be repaired or a note commitment tree is full.
    pub fn partial_chain_strategy<C, T, E, F>(
        current: LedgerState,
        candidates: Vec<Block>,
        check_transparent_coinbase_spend: F,
        generate_valid_commitments: bool,
        collaborators: &C,
    ) -> (chain: Result<Vec<Block>, Fatal>) where
        C: Collaborators,
        F: Fn(OutPoint, CoinbaseSpendRestriction, &OrderedUtxo) -> Result<T, E> + Copy,

        requires
            current.height.0 + candidates@.len() <= u32::MAX,
            blocks_have_outpoints(blocks_view(candidates@)),
            check_is_pure(check_transparent_coinbase_spend),
            deterministic(collaborators),
        ensures
            chain_view(chain) == chain_of(
                rules_of(collaborators, check_transparent_coinbase_spend),
                current.network,
                current.height,
                blocks_view(candidates@),
                generate_valid_commitments,
            ),
    {
        let ghost rules = rules_of(collaborators, check_transparent_coinbase_spend);
        let ghost given = candidates@;
        let ghost all = blocks_view(given);
        let network = current.network;
        let first = current.height;
        let count: usize = candidates.len();
        let mut height: u32 = first.0;
        let mut previous_block_hash: Option<Digest> = None;
        let mut utxos = Ledger::new();
        let mut chain_value_pools = ValueBalance::zero();
        let mut sapling_tree = NoteCommitmentTree::new();
        let mut orchard_tree = NoteCommitmentTree::new();
        let mut history_tree: Option<HistoryTree> = None;
        let mut blocks: Vec<Block> = Vec::new();
        assert(blocks_view(blocks@) =~= Seq::<BlockView>::empty());
        for block in iter: candidates
            invariant
                iter.seq() == given,
                given.len() == count,
                all == blocks_view(given),
                network == current.network,
                first == current.height,
                blocks_have_outpoints(all),
                first.0 + count <= u32::MAX,
                height == first.0 + iter.index(),
                rules == rules_of(collaborators, check_transparent_coinbase_spend),
                check_is_pure(check_transparent_coinbase_spend),
                deterministic(collaborators),
                utxos.wf(),
                sapling_tree.wf(),
                orchard_tree.wf(),
                sapling_tree.capacity() == NOTE_TREE_CAPACITY,
                orchard_tree.capacity() == NOTE_TREE_CAPACITY,
                generate_valid_commitments || history_tree is None,
                built(rules, network, first, all, generate_valid_commitments, iter.index() as nat) == Ok::<
                    ChainState,
                    Fatal,
                >(
                    ChainState {
                        blocks: blocks_view(blocks@),
                        previous_block_hash,
                        entries: utxos@,
                        pools: chain_value_pools,
                        sapling: sapling_tree@,
                        orchard: orchard_tree@,
                        history: history_view(history_tree),
                    },
                ),
        {
            let ghost k = iter.index();
            assert(0 <= k < given.len());
            assert(all[k] == block@);
            let ghost state = ChainState {
                blocks: blocks_view(blocks@),
                previous_block_hash,
                entries: utxos@,
                pools: chain_value_pools,
                sapling: sapling_tree@,
                orchard: orchard_tree@,
                history: history_view(history_tree),
            };
            let block_height = Height(height);
            assert(block_height == height_at(first, k));
            let Block { header, transactions } = block;
            let roots_before = if history_tree.is_some() {
                Some(note_roots(collaborators, &sapling_tree, &orchard_tree))
            } else {
                None
            };
            let repaired = repair_transactions(
                transactions,
                block_height,
                &mut chain_value_pools,
                &mut utxos,
                &mut sapling_tree,
                &mut orchard_tree,
                generate_valid_commitments && height != 0,
                check_transparent_coinbase_spend,
                collaborators,
            );
            let new_transactions = match repaired {
                Ok(kept) => kept,
                Err(fatal) => {
                    proof {
                        lemma_built_ended(
                            rules,
                            network,
                            first,
                            all,
                            generate_valid_commitments,
                            (k + 1) as nat,
                            given.len(),
                        );
                    }
                    return Err(fatal);
                },
            };
            let mut header = header;
            match previous_block_hash {
                Some(hash) => {
                    header.previous_block_hash = hash;
                },
                None => {},
            }
            if generate_valid_commitments {
                let kind = kind_at(&network, block_height);
                let mut history_root = zero_digest();
                let mut block_commitments = zero_digest();
                match kind {
                    CommitmentKind::HistoryRoot | CommitmentKind::BlockCommitments => {
                        match &history_tree {
                            Some(tree) => {
                                match collaborators.history_root(&blocks, tree.roots()) {
                                    Some(root) => {
                                        history_root = root;
                                    },
                                    None => {},
                                }
                            },
                            None => {},
                        }
                    },
                    _ => {},
                }
                match kind {
                    CommitmentKind::BlockCommitments => {
                        let auth_data_root = collaborators.auth_data_root(&new_transactions);
                        block_commitments =
                        collaborators.block_commitments_digest(&history_root, &auth_data_root);
                    },
                    _ => {},
                }
                header.commitment_bytes = encode_commitment(kind, history_root, block_commitments);
            }
            let new_block = Block { header, transactions: new_transactions };
            assert(new_block@ == repaired_block(
                rules,
                network,
                state,
                all[k],
                block_height,
                generate_valid_commitments,
                new_block@.transactions,
            ));
            if generate_valid_commitments {
                history_tree = Some(
                    match history_tree {
                        Some(tree) => {
                            let mut tree = tree;
                            tree.push(roots_before.unwrap());
                            tree
                        },
                        None => HistoryTree::from_block(
                            note_roots(collaborators, &sapling_tree, &orchard_tree),
                        ),
                    },
                );
            }
            previous_block_hash = Some(collaborators.block_hash(&new_block));
            let ghost before = blocks_view(blocks@);
            blocks.push(new_block);
            assert(blocks_view(blocks@) =~= before.push(new_block@));
            height += 1;
        }
        assert(all.len() == given.len());
        Ok(blocks)
    }
}

} // verus!
