//! Rebinding the transparent inputs of a transaction to unspent outputs.

use vstd::prelude::*;
use crate::collaborators::{check_is_pure, spent_view};
use crate::ledger::{
    Entries, Ledger, as_map, distinct_keys, has_key, lemma_key_index, lemma_removed, removed,
};
use crate::parameters::Height;
use crate::select::{
    Accepts, MAX_PROBES, Verdict, accepts_of, find_valid_utxo_for_spend, lemma_first_spendable, selected,
    verdict,
};
use crate::transaction::{Transaction, TransactionView};
use crate::transparent::{
    CoinbaseSpendRestriction, Input, InputView, OrderedUtxo, OutPoint, Output, OutputView, inputs_view,
};

verus! {

/// Where the rebinding of a transaction's inputs stands: the unspent outputs
/// that are left, the restriction under which the transaction spends, its
/// transparent outputs, the inputs that were kept so far, and the outputs
/// that they spend.
pub struct Rebinding {
    pub entries: Entries,
    pub restriction: CoinbaseSpendRestriction,
    pub outputs: Seq<OutputView>,
    pub inputs: Seq<InputView>,
    pub spent: Seq<(OutPoint, OutputView)>,
}

/// The state before the first input of `transaction`, mined at `height`, is
/// looked at.
pub open spec fn rebind_start(transaction: TransactionView, height: Height, entries: Entries) -> Rebinding {
    Rebinding {
        entries,
        restriction: transaction.coinbase_spend_restriction(height),
        outputs: transaction.outputs,
        inputs: Seq::empty(),
        spent: Seq::empty(),
    }
}

/// The state after `input` is dealt with. A coinbase input is kept as it is.
/// An input that spends an output is bound to the output that a search
/// selects, which leaves the ledger; where the search selects nothing, the
/// input is dropped. Where the selected output asks for it, the transaction
/// loses its transparent outputs and spends under the stricter restriction
/// from then on.
pub open spec fn rebind_one(
    accepts: Accepts,
    state: Rebinding,
    input: InputView,
    has_shielded_outputs: bool,
    height: Height,
) -> Rebinding {
    if input.outpoint() is None {
        Rebinding { inputs: state.inputs.push(input), ..state }
    } else {
        match selected(accepts, state.entries, state.restriction, has_shielded_outputs, height) {
            None => state,
            Some(i) => {
                let without_outputs = verdict(
                    accepts,
                    state.entries[i],
                    state.restriction,
                    has_shielded_outputs,
                    height,
                ) == Verdict::WithoutOutputs;
                Rebinding {
                    entries: state.entries.remove(i),
                    restriction: if without_outputs {
                        CoinbaseSpendRestriction::OnlyShieldedOutputs { spend_height: height }
                    } else {
                        state.restriction
                    },
                    outputs: if without_outputs {
                        Seq::empty()
                    } else {
                        state.outputs
                    },
                    inputs: state.inputs.push(input.with_outpoint(state.entries[i].0)),
                    spent: state.spent.push((state.entries[i].0, state.entries[i].1.utxo.output)),
                }
            },
        }
    }
}

/// The state after each of `inputs` is dealt with, in order.
pub open spec fn rebound(
    accepts: Accepts,
    start: Rebinding,
    inputs: Seq<InputView>,
    has_shielded_outputs: bool,
    height: Height,
) -> Rebinding
    decreases inputs.len(),
{
    if inputs.len() == 0 {
        start
    } else {
        rebind_one(
            accepts,
            rebound(accepts, start, inputs.drop_last(), has_shielded_outputs, height),
            inputs.last(),
            has_shielded_outputs,
            height,
        )
    }
}

/// What rebinding does to the ledger and to the transaction.
///
/// It keeps the outpoints of the ledger distinct and adds none. The
/// transparent outputs stay as they were or are all gone. Every input that is
/// kept and spends an output spends one that was unspent before and is
/// unspent no more. Where no input is kept, the ledger is untouched.
pub proof fn lemma_rebound(
    accepts: Accepts,
    start: Rebinding,
    inputs: Seq<InputView>,
    has_shielded_outputs: bool,
    height: Height,
)
    requires
        distinct_keys(start.entries),
    ensures
        ({
            let state = rebound(accepts, start, inputs, has_shielded_outputs, height);
            &&& distinct_keys(state.entries)
            &&& state.outputs == start.outputs || state.outputs == Seq::<OutputView>::empty()
            &&& forall|outpoint: OutPoint| #[trigger]
                has_key(state.entries, outpoint) ==> has_key(start.entries, outpoint)
            &&& start.inputs.len() <= state.inputs.len()
            &&& forall|k: int|
                start.inputs.len() <= k < state.inputs.len() ==> match (#[trigger] state.inputs[k]).outpoint() {
                    Some(outpoint) => has_key(start.entries, outpoint) && !has_key(
                        state.entries,
                        outpoint,
                    ),
                    None => true,
                }
            &&& state.inputs.len() == start.inputs.len() ==> state.entries == start.entries
        }),
    decreases inputs.len(),
{
    if inputs.len() > 0 {
        let before = rebound(accepts, start, inputs.drop_last(), has_shielded_outputs, height);
        let state = rebound(accepts, start, inputs, has_shielded_outputs, height);
        lemma_rebound(accepts, start, inputs.drop_last(), has_shielded_outputs, height);
        if inputs.last().outpoint() is Some {
            match selected(accepts, before.entries, before.restriction, has_shielded_outputs, height) {
                Some(i) => {
                    lemma_first_spendable(
                        accepts,
                        before.entries,
                        before.restriction,
                        has_shielded_outputs,
                        height,
                        MAX_PROBES as nat,
                    );
                    let outpoint = before.entries[i].0;
                    lemma_key_index(before.entries, i);
                    lemma_removed(before.entries, outpoint);
                    assert(state.entries == removed(before.entries, outpoint));
                    assert forall|other: OutPoint| #[trigger]
                        has_key(state.entries, other) implies has_key(before.entries, other) by {
                        assert(as_map(state.entries).dom().contains(other));
                        assert(as_map(before.entries).dom().contains(other));
                    }
                    assert(state.inputs.last().outpoint() == Some(outpoint));
                    assert forall|k: int| start.inputs.len() <= k < state.inputs.len() implies match (
                    #[trigger] state.inputs[k]).outpoint() {
                        Some(spent) => has_key(start.entries, spent) && !has_key(state.entries, spent),
                        None => true,
                    } by {
                        if k < before.inputs.len() {
                            assert(state.inputs[k] == before.inputs[k]);
                        }
                    }
                },
                None => {},
            }
        } else {
            assert forall|k: int| start.inputs.len() <= k < state.inputs.len() implies match (
            #[trigger] state.inputs[k]).outpoint() {
                Some(spent) => has_key(start.entries, spent) && !has_key(state.entries, spent),
                None => true,
            } by {
                if k < before.inputs.len() {
                    assert(state.inputs[k] == before.inputs[k]);
                }
            }
        }
    }
}

/// Binds each input of `transaction` that spends an output to an unspent
/// output of `utxos`, in order, and returns the outputs that were spent.
///
/// What comes out is what [`rebound`] says: the inputs that found no output
/// are gone, the others spend outputs that have left `utxos`, and the
/// transaction has lost its transparent outputs if one of them asked for it.
pub fn rebind_inputs<T, E, F>(
    transaction: &mut Transaction,
    height: Height,
    utxos: &mut Ledger,
    check: F,
) -> (spent: Vec<(OutPoint, Output)>) where
    F: Fn(OutPoint, CoinbaseSpendRestriction, &OrderedUtxo) -> Result<T, E> + Copy,

    requires
        old(utxos).wf(),
        check_is_pure(check),
    ensures
        final(utxos).wf(),
        ({
            let state = rebound(
                accepts_of(check),
                rebind_start(old(transaction)@, height, old(utxos)@),
                old(transaction)@.inputs,
                old(transaction)@.has_shielded_outputs(),
                height,
            );
            &&& final(utxos)@ == state.entries
            &&& final(transaction)@ == (TransactionView {
                inputs: state.inputs,
                outputs: state.outputs,
                ..old(transaction)@
            })
            &&& spent_view(spent@) == state.spent
        }),
{
    let ghost accepts = accepts_of(check);
    let ghost before = old(transaction)@;
    let ghost start = rebind_start(before, height, old(utxos)@);
    let ghost shielded = before.has_shielded_outputs();
    let mut restriction = transaction.coinbase_spend_restriction(height);
    let mut given_inputs: Vec<Input> = Vec::new();
    core::mem::swap(&mut transaction.inputs, &mut given_inputs);
    let ghost given = given_inputs@;
    let mut new_inputs: Vec<Input> = Vec::new();
    let mut spent: Vec<(OutPoint, Output)> = Vec::new();
    assert(inputs_view(new_inputs@) =~= Seq::<InputView>::empty());
    assert(spent_view(spent@) =~= Seq::<(OutPoint, OutputView)>::empty());
    assert(inputs_view(given).take(0) =~= Seq::<InputView>::empty());
    assert(inputs_view(transaction.inputs@) =~= Seq::<InputView>::empty());
    for input in iter: given_inputs
        invariant
            iter.seq() == given,
            inputs_view(given) == before.inputs,
            utxos.wf(),
            check_is_pure(check),
            accepts == accepts_of(check),
            shielded == before.has_shielded_outputs(),
            start == rebind_start(before, height, old(utxos)@),
            transaction@ == (TransactionView {
                inputs: Seq::empty(),
                outputs: transaction@.outputs,
                ..before
            }),
            ({
                let state = rebound(
                    accepts,
                    start,
                    inputs_view(given).take(iter.index()),
                    shielded,
                    height,
                );
                &&& utxos@ == state.entries
                &&& restriction == state.restriction
                &&& transaction@.outputs == state.outputs
                &&& inputs_view(new_inputs@) == state.inputs
                &&& spent_view(spent@) == state.spent
            }),
    {
        let ghost k = iter.index();
        let ghost state = rebound(accepts, start, inputs_view(given).take(k), shielded, height);
        proof {
            assert(inputs_view(given).take(k + 1).drop_last() =~= inputs_view(given).take(k));
            assert(inputs_view(given).take(k + 1).last() == input@);
        }
        if input.outpoint().is_some() {
            let ghost entries = utxos@;
            let found = find_valid_utxo_for_spend(transaction, &mut restriction, height, utxos, check);
            match found {
                Some(selected_outpoint) => {
                    proof {
                        let i = selected(accepts, entries, state.restriction, shielded, height).unwrap();
                        lemma_key_index(entries, i);
                    }
                    let ghost kept = inputs_view(new_inputs@);
                    let ghost gone = spent_view(spent@);
                    let rebound_input = input.set_outpoint(selected_outpoint);
                    new_inputs.push(rebound_input);
                    let spent_utxo = utxos.remove(&selected_outpoint);
                    spent.push((selected_outpoint, spent_utxo.utxo.output));
                    assert(inputs_view(new_inputs@) =~= kept.push(rebound_input@));
                    assert(spent_view(spent@) =~= gone.push((selected_outpoint, spent_utxo@.utxo.output)));
                },
                None => {},
            }
        } else {
            let ghost kept = inputs_view(new_inputs@);
            new_inputs.push(input);
            assert(inputs_view(new_inputs@) =~= kept.push(input@));
        }
    }
    assert(inputs_view(given).take(given.len() as int) =~= inputs_view(given));
    transaction.inputs = new_inputs;
    spent
}

} // verus!
