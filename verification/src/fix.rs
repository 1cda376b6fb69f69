//! Repairing one transaction against the ledger and the value pools.

use vstd::prelude::*;
use crate::collaborators::{Collaborators, check_is_pure, deterministic};
use crate::ledger::{Entries, Ledger, distinct_keys, has_key, lemma_recorded, recorded};
use crate::parameters::Height;
use crate::rebind::{lemma_rebound, rebind_inputs, rebind_start, rebound};
use crate::rules::{Rules, rules_of};
use crate::select::{MAX_PROBES, Verdict, lemma_first_spendable, verdict};
use crate::transaction::{Transaction, TransactionView};
use crate::transparent::{CoinbaseSpendRestriction, OrderedUtxo, OutPoint, Output, OutputView};
use crate::value::{ValueBalance, ValueFlow};

verus! {

/// Why the construction of a chain cannot go on.
#[derive(Clone, Copy, Debug, PartialEq, Eq, Structural)]
pub enum Fatal {
    /// No flow of value through the transaction at `tx_index_in_block` of the
    /// block at `height` keeps every pool at or above nothing.
    ValueRepair { height: Height, tx_index_in_block: usize },
    /// A note commitment tree is full and cannot take the commitments of the
    /// transaction at `tx_index_in_block` of the block at `height`.
    TreeFull { height: Height, tx_index_in_block: usize },
}

/// What the repair of a transaction leaves: the transaction, unless it was
/// dropped, the value pools and the unspent outputs.
pub struct Fixed {
    pub kept: Option<TransactionView>,
    pub pools: ValueBalance,
    pub entries: Entries,
}

/// The transaction whose inputs are rebound against `entries`, before its
/// values are repaired.
pub open spec fn rebound_transaction(
    rules: Rules,
    transaction: TransactionView,
    height: Height,
    entries: Entries,
) -> TransactionView {
    let state = rebound(
        rules.accepts,
        rebind_start(transaction, height, entries),
        transaction.inputs,
        transaction.has_shielded_outputs(),
        height,
    );
    TransactionView { inputs: state.inputs, outputs: state.outputs, ..transaction }
}

/// The unspent outputs that are left when the inputs of `transaction` are
/// rebound against `entries`.
pub open spec fn unspent_after(
    rules: Rules,
    transaction: TransactionView,
    height: Height,
    entries: Entries,
) -> Entries {
    rebound(
        rules.accepts,
        rebind_start(transaction, height, entries),
        transaction.inputs,
        transaction.has_shielded_outputs(),
        height,
    ).entries
}

/// The outputs that `transaction` spends once its inputs are rebound against
/// `entries`.
pub open spec fn spent_by(
    rules: Rules,
    transaction: TransactionView,
    height: Height,
    entries: Entries,
) -> Seq<(OutPoint, OutputView)> {
    rebound(
        rules.accepts,
        rebind_start(transaction, height, entries),
        transaction.inputs,
        transaction.has_shielded_outputs(),
        height,
    ).spent
}

/// The repair of `transaction`, which stands at `tx_index_in_block` in the
/// block at `height`, against the pools and the unspent outputs of the chain
/// before it.
///
/// Its inputs are rebound. Then its values are repaired: that fails where no
/// flow is offered, the flow does not fit the transaction, or a pool would
/// go below nothing. A transaction that is left without any input is
/// dropped. One that is kept above height zero moves the pools and has its
/// outputs recorded; at height zero neither happens.
pub open spec fn fixed(
    rules: Rules,
    transaction: TransactionView,
    tx_index_in_block: usize,
    height: Height,
    pools: ValueBalance,
    entries: Entries,
) -> Result<Fixed, Fatal> {
    let rebound = rebound_transaction(rules, transaction, height, entries);
    let unspent = unspent_after(rules, transaction, height, entries);
    match (rules.repair)(rebound, pools, spent_by(rules, transaction, height, entries)) {
        Some((flow, new_pools)) if rebound.fits(flow) && new_pools.non_negative() => {
            let repaired = rebound.with_flow(flow);
            if !repaired.has_transparent_or_shielded_inputs() {
                Ok(Fixed { kept: None, pools, entries: unspent })
            } else if height.0 > 0 {
                Ok(
                    Fixed {
                        kept: Some(repaired),
                        pools: new_pools,
                        entries: recorded(
                            unspent,
                            repaired.outputs,
                            (rules.transaction_hash)(repaired),
                            height,
                            repaired.is_coinbase(),
                            tx_index_in_block,
                            repaired.outputs.len(),
                        ),
                    },
                )
            } else {
                Ok(Fixed { kept: Some(repaired), pools, entries: unspent })
            }
        },
        _ => Err(Fatal::ValueRepair { height, tx_index_in_block }),
    }
}

/// Every input of a kept transaction that spends an output spends one that
/// was unspent before the transaction was repaired. Afterwards that outpoint
/// is unspent only if it names an output of the repaired transaction itself.
pub proof fn lemma_kept_inputs_spend_unspent_outputs(
    rules: Rules,
    transaction: TransactionView,
    tx_index_in_block: usize,
    height: Height,
    pools: ValueBalance,
    entries: Entries,
)
    requires
        distinct_keys(entries),
        transaction.outputs.len() <= u32::MAX,
        fixed(rules, transaction, tx_index_in_block, height, pools, entries) is Ok,
        fixed(rules, transaction, tx_index_in_block, height, pools, entries)->Ok_0.kept is Some,
    ensures
        ({
            let left = fixed(rules, transaction, tx_index_in_block, height, pools, entries)->Ok_0;
            let kept = left.kept->Some_0;
            &&& distinct_keys(left.entries)
            &&& forall|k: int|
                0 <= k < kept.inputs.len() ==> match (#[trigger] kept.inputs[k]).outpoint() {
                    Some(outpoint) => {
                        &&& has_key(entries, outpoint)
                        &&& has_key(left.entries, outpoint) ==> outpoint.hash == (rules.transaction_hash)(
                            kept,
                        ) && outpoint.index < kept.outputs.len()
                    },
                    None => true,
                }
        }),
{
    let left = fixed(rules, transaction, tx_index_in_block, height, pools, entries)->Ok_0;
    let kept = left.kept->Some_0;
    let unspent = unspent_after(rules, transaction, height, entries);
    lemma_rebound(
        rules.accepts,
        rebind_start(transaction, height, entries),
        transaction.inputs,
        transaction.has_shielded_outputs(),
        height,
    );
    if height.0 > 0 {
        lemma_recorded(
            unspent,
            kept.outputs,
            (rules.transaction_hash)(kept),
            height,
            kept.is_coinbase(),
            tx_index_in_block,
            kept.outputs.len(),
        );
    }
}

/// A transaction that is dropped leaves the unspent outputs and the value
/// pools as they were.
pub proof fn lemma_dropped_leaves_no_trace(
    rules: Rules,
    transaction: TransactionView,
    tx_index_in_block: usize,
    height: Height,
    pools: ValueBalance,
    entries: Entries,
)
    requires
        distinct_keys(entries),
        fixed(rules, transaction, tx_index_in_block, height, pools, entries) is Ok,
        fixed(rules, transaction, tx_index_in_block, height, pools, entries)->Ok_0.kept is None,
    ensures
        fixed(rules, transaction, tx_index_in_block, height, pools, entries)->Ok_0.entries == entries,
        fixed(rules, transaction, tx_index_in_block, height, pools, entries)->Ok_0.pools == pools,
{
    lemma_rebound(
        rules.accepts,
        rebind_start(transaction, height, entries),
        transaction.inputs,
        transaction.has_shielded_outputs(),
        height,
    );
}

/// A transaction that spends no shielded note, and whose inputs all spend
/// outputs while every unspent output is refused to it, is dropped.
pub proof fn lemma_unspendable_is_dropped(
    rules: Rules,
    transaction: TransactionView,
    tx_index_in_block: usize,
    height: Height,
    pools: ValueBalance,
    entries: Entries,
)
    requires
        !transaction.has_shielded_inputs(),
        forall|k: int| 0 <= k < transaction.inputs.len() ==> (#[trigger] transaction.inputs[k]).outpoint() is Some,
        forall|i: int|
            0 <= i < entries.len() ==> verdict(
                rules.accepts,
                #[trigger] entries[i],
                transaction.coinbase_spend_restriction(height),
                transaction.has_shielded_outputs(),
                height,
            ) == Verdict::Refused,
        fixed(rules, transaction, tx_index_in_block, height, pools, entries) is Ok,
    ensures
        fixed(rules, transaction, tx_index_in_block, height, pools, entries)->Ok_0.kept is None,
{
    lemma_nothing_rebound(rules, transaction, height, entries, transaction.inputs.len());
    assert(transaction.inputs.take(transaction.inputs.len() as int) =~= transaction.inputs);
}

/// Where every unspent output is refused, the first `n` inputs of a
/// transaction whose inputs all spend outputs are dropped one by one.
proof fn lemma_nothing_rebound(
    rules: Rules,
    transaction: TransactionView,
    height: Height,
    entries: Entries,
    n: nat,
)
    requires
        n <= transaction.inputs.len(),
        forall|k: int| 0 <= k < transaction.inputs.len() ==> (#[trigger] transaction.inputs[k]).outpoint() is Some,
        forall|i: int|
            0 <= i < entries.len() ==> verdict(
                rules.accepts,
                #[trigger] entries[i],
                transaction.coinbase_spend_restriction(height),
                transaction.has_shielded_outputs(),
                height,
            ) == Verdict::Refused,
    ensures
        rebound(
            rules.accepts,
            rebind_start(transaction, height, entries),
            transaction.inputs.take(n as int),
            transaction.has_shielded_outputs(),
            height,
        ) == rebind_start(transaction, height, entries),
    decreases n,
{
    if n > 0 {
        lemma_nothing_rebound(rules, transaction, height, entries, (n - 1) as nat);
        let start = rebind_start(transaction, height, entries);
        assert(transaction.inputs.take(n as int).drop_last() =~= transaction.inputs.take(n - 1));
        assert(transaction.inputs.take(n as int).last() == transaction.inputs[n - 1]);
        lemma_first_spendable(
            rules.accepts,
            entries,
            start.restriction,
            transaction.has_shielded_outputs(),
            height,
            MAX_PROBES as nat,
        );
    }
}

/// The value of a transaction that may have been dropped.
pub open spec fn kept_view(kept: Option<Transaction>) -> Option<TransactionView> {
    match kept {
        Some(transaction) => Some(transaction@),
        None => None,
    }
}

/// Makes `transaction` move the value that `flow` says.
pub fn apply_flow(transaction: &mut Transaction, flow: &ValueFlow)
    requires
        old(transaction)@.fits(flow@),
    ensures
        final(transaction)@ == old(transaction)@.with_flow(flow@),
{
    let mut old_outputs: Vec<Output> = Vec::new();
    core::mem::swap(&mut transaction.outputs, &mut old_outputs);
    let ghost given = old_outputs@;
    let mut new_outputs: Vec<Output> = Vec::new();
    for output in iter: old_outputs
        invariant
            iter.seq() == given,
            flow@.output_values.len() == given.len(),
            new_outputs@.len() == iter.index(),
            forall|j: int|
                0 <= j < iter.index() ==> (#[trigger] new_outputs@[j])@ == (OutputView {
                    value: flow@.output_values[j],
                    lock_script: given[j]@.lock_script,
                }),
    {
        let i: usize = new_outputs.len();
        new_outputs.push(Output { value: flow.output_values[i], lock_script: output.lock_script });
    }
    transaction.outputs = new_outputs;
    transaction.sprout.value_balance = flow.sprout;
    transaction.sapling.value_balance = flow.sapling;
    transaction.orchard.value_balance = flow.orchard;
    assert(transaction@.outputs =~= old(transaction)@.with_flow(flow@).outputs);
}

/// Repairs `transaction`, which stands at `tx_index_in_block` in the block
/// at `height`, so that it spends unspent outputs only and keeps every value
/// pool at or above nothing.
///
/// Returns the repaired transaction, or nothing if it was left without any
/// input and is dropped. `utxos` loses the outputs that the transaction
/// spends and, above height zero, gains those it creates; above height zero
/// `chain_value_pools` moves as the repaired values say. The repair fails
/// where `collaborators` finds no flow of value that keeps the pools in
/// order: `utxos` has then lost the spent outputs, and the pools are as
/// before.
pub fn fix_generated_transaction<C, T, E, F>(
    transaction: Transaction,
    tx_index_in_block: usize,
    height: Height,
    chain_value_pools: &mut ValueBalance,
    utxos: &mut Ledger,
    check_transparent_coinbase_spend: F,
    collaborators: &C,
) -> (outcome: Result<Option<Transaction>, Fatal>) where
    C: Collaborators,
    F: Fn(OutPoint, CoinbaseSpendRestriction, &OrderedUtxo) -> Result<T, E> + Copy,

    requires
        old(utxos).wf(),
        transaction@.outputs.len() <= u32::MAX,
        check_is_pure(check_transparent_coinbase_spend),
        deterministic(collaborators),
    ensures
        final(utxos).wf(),
        old(chain_value_pools).non_negative() ==> final(chain_value_pools).non_negative(),
        match fixed(
            rules_of(collaborators, check_transparent_coinbase_spend),
            transaction@,
            tx_index_in_block,
            height,
            *old(chain_value_pools),
            old(utxos)@,
        ) {
            Ok(left) => {
                &&& outcome matches Ok(kept)
                &&& kept_view(kept) == left.kept
                &&& *final(chain_value_pools) == left.pools
                &&& final(utxos)@ == left.entries
            },
            Err(fatal) => {
                &&& outcome == Err::<Option<Transaction>, Fatal>(fatal)
                &&& *final(chain_value_pools) == *old(chain_value_pools)
                &&& final(utxos)@ == unspent_after(
                    rules_of(collaborators, check_transparent_coinbase_spend),
                    transaction@,
                    height,
                    old(utxos)@,
                )
            },
        },
{
    proof {
        lemma_rebound(
            rules_of(collaborators, check_transparent_coinbase_spend).accepts,
            rebind_start(transaction@, height, utxos@),
            transaction@.inputs,
            transaction@.has_shielded_outputs(),
            height,
        );
    }
    let mut transaction = transaction;
    let spent = rebind_inputs(&mut transaction, height, utxos, check_transparent_coinbase_spend);
    let repair = collaborators.repair_values(&transaction, chain_value_pools, &spent);
    let (flow, new_pools) = match repair {
        Some(found) => found,
        None => {
            return Err(Fatal::ValueRepair { height, tx_index_in_block });
        },
    };
    if flow.output_values.len() != transaction.outputs.len() || !new_pools.is_non_negative() {
        return Err(Fatal::ValueRepair { height, tx_index_in_block });
    }
    apply_flow(&mut transaction, &flow);
    if !transaction.has_transparent_or_shielded_inputs() {
        return Ok(None);
    }
    if height.0 > 0 {
        *chain_value_pools = new_pools;
        let hash = collaborators.transaction_hash(&transaction);
        utxos.record(&transaction, hash, tx_index_in_block, height);
    }
    Ok(Some(transaction))
}

} // verus!
