//! What holds of every chain that the constructor builds.

use vstd::prelude::*;
use crate::block::BlockView;
use crate::chain::{
    BlockState, block_start, blocks_have_outpoints, built, chain_of, fix_transactions, height_at,
    history_root_before, outputs_have_outpoints, repaired_block,
};
use crate::fix::{
    Fatal, fixed, lemma_dropped_leaves_no_trace, lemma_kept_inputs_spend_unspent_outputs,
};
use crate::ledger::distinct_keys;
use crate::parameters::{Digest, Height, Network, zeroed};
use crate::rules::Rules;
use crate::transaction::TransactionView;

verus! {

/// The Sapling note commitments of `transactions`, in the order of the
/// transactions and, within a transaction, of its notes.
pub open spec fn sapling_commitments(transactions: Seq<TransactionView>) -> Seq<Digest>
    decreases transactions.len(),
{
    if transactions.len() == 0 {
        Seq::empty()
    } else {
        sapling_commitments(transactions.drop_last()) + transactions.last().sapling.note_commitments
    }
}

/// The Orchard note commitments of `transactions`, in the order of the
/// transactions and, within a transaction, of its notes.
pub open spec fn orchard_commitments(transactions: Seq<TransactionView>) -> Seq<Digest>
    decreases transactions.len(),
{
    if transactions.len() == 0 {
        Seq::empty()
    } else {
        orchard_commitments(transactions.drop_last()) + transactions.last().orchard.note_commitments
    }
}

/// Repairing the transactions of a block keeps every pool at or above
/// nothing.
pub proof fn lemma_transactions_keep_pools(
    rules: Rules,
    transactions: Seq<TransactionView>,
    height: Height,
    start: BlockState,
    fold: bool,
    n: nat,
)
    requires
        start.pools.non_negative(),
        fix_transactions(rules, transactions, height, start, fold, n) is Ok,
    ensures
        fix_transactions(rules, transactions, height, start, fold, n)->Ok_0.pools.non_negative(),
    decreases n,
{
    if n > 0 {
        lemma_transactions_keep_pools(rules, transactions, height, start, fold, (n - 1) as nat);
    }
}

/// Repairing the transactions of a block keeps the outpoints of the ledger
/// distinct.
pub proof fn lemma_transactions_keep_ledger(
    rules: Rules,
    transactions: Seq<TransactionView>,
    height: Height,
    start: BlockState,
    fold: bool,
    n: nat,
)
    requires
        distinct_keys(start.entries),
        outputs_have_outpoints(transactions),
        n <= transactions.len(),
        fix_transactions(rules, transactions, height, start, fold, n) is Ok,
    ensures
        distinct_keys(fix_transactions(rules, transactions, height, start, fold, n)->Ok_0.entries),
    decreases n,
{
    if n > 0 {
        lemma_transactions_keep_ledger(rules, transactions, height, start, fold, (n - 1) as nat);
        let before = fix_transactions(rules, transactions, height, start, fold, (n - 1) as nat)->Ok_0;
        let left = fixed(rules, transactions[n - 1], (n - 1) as usize, height, before.pools, before.entries)->Ok_0;
        if left.kept is Some {
            lemma_kept_inputs_spend_unspent_outputs(
                rules,
                transactions[n - 1],
                (n - 1) as usize,
                height,
                before.pools,
                before.entries,
            );
        } else {
            lemma_dropped_leaves_no_trace(
                rules,
                transactions[n - 1],
                (n - 1) as usize,
                height,
                before.pools,
                before.entries,
            );
        }
    }
}

/// After every prefix of a chain, the ledger holds each outpoint at most
/// once.
pub proof fn lemma_ledger_stays_distinct(
    rules: Rules,
    network: Network,
    first: Height,
    candidates: Seq<BlockView>,
    generate_valid_commitments: bool,
    n: nat,
)
    requires
        blocks_have_outpoints(candidates),
        n <= candidates.len(),
        built(rules, network, first, candidates, generate_valid_commitments, n) is Ok,
    ensures
        distinct_keys(
            built(rules, network, first, candidates, generate_valid_commitments, n)->Ok_0.entries,
        ),
    decreases n,
{
    if n > 0 {
        lemma_ledger_stays_distinct(
            rules,
            network,
            first,
            candidates,
            generate_valid_commitments,
            (n - 1) as nat,
        );
        let before = built(
            rules,
            network,
            first,
            candidates,
            generate_valid_commitments,
            (n - 1) as nat,
        )->Ok_0;
        lemma_transactions_keep_ledger(
            rules,
            candidates[n - 1].transactions,
            height_at(first, n - 1),
            block_start(before),
            generate_valid_commitments && height_at(first, n - 1).0 != 0,
            candidates[n - 1].transactions.len(),
        );
    }
}

/// The transactions that are kept stay in order and are no more than the
/// candidates. Where note commitments are folded, the trees gain those of
/// the kept transactions, in the order of the transactions and, within a
/// transaction, of its notes; where they are not, the trees stay as they
/// are.
pub proof fn lemma_trees_gain_kept_commitments(
    rules: Rules,
    transactions: Seq<TransactionView>,
    height: Height,
    start: BlockState,
    fold: bool,
    n: nat,
)
    requires
        start.kept.len() == 0,
        fix_transactions(rules, transactions, height, start, fold, n) is Ok,
    ensures
        ({
            let after = fix_transactions(rules, transactions, height, start, fold, n)->Ok_0;
            &&& after.kept.len() <= n
            &&& after.sapling == start.sapling + if fold {
                sapling_commitments(after.kept)
            } else {
                Seq::empty()
            }
            &&& after.orchard == start.orchard + if fold {
                orchard_commitments(after.kept)
            } else {
                Seq::empty()
            }
        }),
    decreases n,
{
    let after = fix_transactions(rules, transactions, height, start, fold, n)->Ok_0;
    if n == 0 {
        assert(after.sapling =~= start.sapling + Seq::<Digest>::empty());
        assert(after.orchard =~= start.orchard + Seq::<Digest>::empty());
    } else {
        lemma_trees_gain_kept_commitments(rules, transactions, height, start, fold, (n - 1) as nat);
        let before = fix_transactions(rules, transactions, height, start, fold, (n - 1) as nat)->Ok_0;
        if after.kept.len() > before.kept.len() {
            assert(after.kept.drop_last() =~= before.kept);
        }
        assert(after.sapling =~= start.sapling + if fold {
            sapling_commitments(after.kept)
        } else {
            Seq::empty()
        });
        assert(after.orchard =~= start.orchard + if fold {
            orchard_commitments(after.kept)
        } else {
            Seq::empty()
        });
    }
}

/// A construction that has reached `n` blocks has reached every number of
/// blocks below `n`, and the blocks it had then are the first of those it
/// has now.
pub proof fn lemma_built_prefix(
    rules: Rules,
    network: Network,
    first: Height,
    candidates: Seq<BlockView>,
    generate_valid_commitments: bool,
    n: nat,
    m: nat,
)
    requires
        m <= n,
        built(rules, network, first, candidates, generate_valid_commitments, n) is Ok,
    ensures
        built(rules, network, first, candidates, generate_valid_commitments, m) is Ok,
        built(rules, network, first, candidates, generate_valid_commitments, m)->Ok_0.blocks.len() == m,
        built(rules, network, first, candidates, generate_valid_commitments, m)->Ok_0.blocks == built(
            rules,
            network,
            first,
            candidates,
            generate_valid_commitments,
            n,
        )->Ok_0.blocks.take(m as int),
    decreases n,
{
    let now = built(rules, network, first, candidates, generate_valid_commitments, n)->Ok_0;
    if n == 0 {
        assert(now.blocks.take(0) =~= now.blocks);
    } else {
        let before = built(
            rules,
            network,
            first,
            candidates,
            generate_valid_commitments,
            (n - 1) as nat,
        )->Ok_0;
        lemma_built_prefix(
            rules,
            network,
            first,
            candidates,
            generate_valid_commitments,
            (n - 1) as nat,
            (n - 1) as nat,
        );
        assert(before.blocks.take(n - 1) =~= before.blocks);
        if m < n {
            lemma_built_prefix(
                rules,
                network,
                first,
                candidates,
                generate_valid_commitments,
                (n - 1) as nat,
                m,
            );
            assert(now.blocks.take(m as int) =~= before.blocks.take(m as int));
        } else {
            assert(now.blocks.take(n as int) =~= now.blocks);
        }
    }
}

/// Each block of a chain is the repair of its candidate behind the blocks
/// before it, and the construction remembers the hash of its last block.
pub proof fn lemma_built_blocks(
    rules: Rules,
    network: Network,
    first: Height,
    candidates: Seq<BlockView>,
    generate_valid_commitments: bool,
    n: nat,
    i: int,
)
    requires
        0 <= i < n,
        built(rules, network, first, candidates, generate_valid_commitments, n) is Ok,
    ensures
        built(rules, network, first, candidates, generate_valid_commitments, i as nat) is Ok,
        built(rules, network, first, candidates, generate_valid_commitments, n)->Ok_0.blocks.len() == n,
        built(rules, network, first, candidates, generate_valid_commitments, n)->Ok_0.blocks[i]
            == repaired_block(
            rules,
            network,
            built(rules, network, first, candidates, generate_valid_commitments, i as nat)->Ok_0,
            candidates[i],
            height_at(first, i),
            generate_valid_commitments,
            built(rules, network, first, candidates, generate_valid_commitments, n)->Ok_0.blocks[i].transactions,
        ),
        built(
            rules,
            network,
            first,
            candidates,
            generate_valid_commitments,
            (i + 1) as nat,
        )->Ok_0.previous_block_hash == Some(
            (rules.block_hash)(
                built(rules, network, first, candidates, generate_valid_commitments, n)->Ok_0.blocks[i],
            ),
        ),
{
    lemma_built_prefix(rules, network, first, candidates, generate_valid_commitments, n, n);
    lemma_built_prefix(rules, network, first, candidates, generate_valid_commitments, n, i as nat);
    lemma_built_prefix(
        rules,
        network,
        first,
        candidates,
        generate_valid_commitments,
        n,
        (i + 1) as nat,
    );
    let now = built(rules, network, first, candidates, generate_valid_commitments, n)->Ok_0;
    let after = built(rules, network, first, candidates, generate_valid_commitments, (i + 1) as nat)->Ok_0;
    assert(after.blocks[i] == now.blocks.take(i + 1)[i]);
}

/// In a chain, every block but the first carries the hash of the block
/// before it as its previous-block hash.
pub proof fn lemma_blocks_are_linked(
    rules: Rules,
    network: Network,
    first: Height,
    candidates: Seq<BlockView>,
    generate_valid_commitments: bool,
    i: int,
)
    requires
        chain_of(rules, network, first, candidates, generate_valid_commitments) is Ok,
        1 <= i < candidates.len(),
    ensures
        chain_of(rules, network, first, candidates, generate_valid_commitments)->Ok_0.len()
            == candidates.len(),
        chain_of(
            rules,
            network,
            first,
            candidates,
            generate_valid_commitments,
        )->Ok_0[i].header.previous_block_hash == (rules.block_hash)(
            chain_of(rules, network, first, candidates, generate_valid_commitments)->Ok_0[i - 1],
        ),
{
    lemma_built_blocks(rules, network, first, candidates, generate_valid_commitments, candidates.len(), i);
    lemma_built_blocks(
        rules,
        network,
        first,
        candidates,
        generate_valid_commitments,
        candidates.len(),
        i - 1,
    );
}

/// After every prefix of a chain, no value pool holds less than nothing.
pub proof fn lemma_pools_stay_non_negative(
    rules: Rules,
    network: Network,
    first: Height,
    candidates: Seq<BlockView>,
    generate_valid_commitments: bool,
    n: nat,
)
    requires
        built(rules, network, first, candidates, generate_valid_commitments, n) is Ok,
    ensures
        built(rules, network, first, candidates, generate_valid_commitments, n)->Ok_0.pools.non_negative(),
    decreases n,
{
    if n > 0 {
        lemma_pools_stay_non_negative(
            rules,
            network,
            first,
            candidates,
            generate_valid_commitments,
            (n - 1) as nat,
        );
        let before = built(
            rules,
            network,
            first,
            candidates,
            generate_valid_commitments,
            (n - 1) as nat,
        )->Ok_0;
        lemma_transactions_keep_pools(
            rules,
            candidates[n - 1].transactions,
            height_at(first, n - 1),
            block_start(before),
            generate_valid_commitments && height_at(first, n - 1).0 != 0,
            candidates[n - 1].transactions.len(),
        );
    }
}

/// With valid commitments, a block above the Heartwood activation height,
/// and below that of NU5 where it has one, carries as its commitment the
/// root that the history tree had before the block.
pub proof fn lemma_commitment_is_earlier_history_root(
    rules: Rules,
    network: Network,
    first: Height,
    candidates: Seq<BlockView>,
    i: int,
)
    requires
        chain_of(rules, network, first, candidates, true) is Ok,
        0 <= i < candidates.len(),
        height_at(first, i).0 > network.heartwood.0,
        network.nu5 matches Some(nu5) ==> height_at(first, i).0 < nu5.0,
    ensures
        built(rules, network, first, candidates, true, i as nat) is Ok,
        chain_of(rules, network, first, candidates, true)->Ok_0[i].header.commitment_bytes
            == history_root_before(rules, built(rules, network, first, candidates, true, i as nat)->Ok_0),
{
    lemma_built_blocks(rules, network, first, candidates, true, candidates.len(), i);
}

/// With valid commitments, the block at the Heartwood activation height
/// carries the all-zero commitment, whatever the trees hold.
pub proof fn lemma_activation_block_commits_to_zero(
    rules: Rules,
    network: Network,
    first: Height,
    candidates: Seq<BlockView>,
    i: int,
)
    requires
        chain_of(rules, network, first, candidates, true) is Ok,
        0 <= i < candidates.len(),
        height_at(first, i) == network.heartwood,
    ensures
        chain_of(rules, network, first, candidates, true)->Ok_0[i].header.commitment_bytes == zeroed(),
{
    lemma_built_blocks(rules, network, first, candidates, true, candidates.len(), i);
}

/// The chain is a function of the candidates, the network, the first height
/// and the rules: two constructions that agree on these end alike.
pub proof fn lemma_construction_is_determined(
    rules: Rules,
    network: Network,
    first: Height,
    candidates: Seq<BlockView>,
    generate_valid_commitments: bool,
    one: Result<Seq<BlockView>, Fatal>,
    other: Result<Seq<BlockView>, Fatal>,
)
    requires
        one == chain_of(rules, network, first, candidates, generate_valid_commitments),
        other == chain_of(rules, network, first, candidates, generate_valid_commitments),
    ensures
        one == other,
{
}

} // verus!
