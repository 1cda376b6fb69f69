//! Transactions, as far as chain bookkeeping reads them.

use vstd::prelude::*;
use crate::parameters::{Digest, Height};
use crate::transparent::{
    CoinbaseSpendRestriction, Input, InputView, Output, OutputView, inputs_view, outputs_view,
};
use crate::value::ValueFlowView;

verus! {

/// What a transaction does in one shielded pool.
#[derive(Clone, Debug, PartialEq, Eq)]
pub struct ShieldedBundle {
    /// The number of notes it spends.
    pub spends: u32,
    /// The commitments to the notes it creates, in note order.
    pub note_commitments: Vec<Digest>,
    /// The net value that leaves the pool.
    pub value_balance: i64,
}

/// The mathematical value of a [`ShieldedBundle`].
pub struct ShieldedBundleView {
    pub spends: u32,
    pub note_commitments: Seq<Digest>,
    pub value_balance: i64,
}

impl View for ShieldedBundle {
    type V = ShieldedBundleView;

    open spec fn view(&self) -> ShieldedBundleView {
        ShieldedBundleView {
            spends: self.spends,
            note_commitments: self.note_commitments@,
            value_balance: self.value_balance,
        }
    }
}

/// A transaction: transparent inputs and outputs, one bundle for each shielded
/// pool, and the signatures and proofs that authorize it.
#[derive(Clone, Debug, PartialEq, Eq)]
pub struct Transaction {
    pub inputs: Vec<Input>,
    pub outputs: Vec<Output>,
    pub sprout: ShieldedBundle,
    pub sapling: ShieldedBundle,
    pub orchard: ShieldedBundle,
    pub authorization: Vec<u8>,
}

/// The mathematical value of a [`Transaction`].
pub struct TransactionView {
    pub inputs: Seq<InputView>,
    pub outputs: Seq<OutputView>,
    pub sprout: ShieldedBundleView,
    pub sapling: ShieldedBundleView,
    pub orchard: ShieldedBundleView,
    pub authorization: Seq<u8>,
}

impl View for Transaction {
    type V = TransactionView;

    open spec fn view(&self) -> TransactionView {
        TransactionView {
            inputs: inputs_view(self.inputs@),
            outputs: outputs_view(self.outputs@),
            sprout: self.sprout@,
            sapling: self.sapling@,
            orchard: self.orchard@,
            authorization: self.authorization@,
        }
    }
}

impl TransactionView {
    /// Whether the transaction spends a note of some shielded pool.
    pub open spec fn has_shielded_inputs(self) -> bool {
        self.sprout.spends > 0 || self.sapling.spends > 0 || self.orchard.spends > 0
    }

    /// Whether the transaction creates a note in some shielded pool.
    pub open spec fn has_shielded_outputs(self) -> bool {
        self.sprout.note_commitments.len() > 0 || self.sapling.note_commitments.len() > 0
            || self.orchard.note_commitments.len() > 0
    }

    /// Whether the transaction has an input of any kind.
    pub open spec fn has_transparent_or_shielded_inputs(self) -> bool {
        self.inputs.len() > 0 || self.has_shielded_inputs()
    }

    /// Whether the transaction creates value: its one input is a coinbase input.
    pub open spec fn is_coinbase(self) -> bool {
        self.inputs.len() == 1 && self.inputs[0] is Coinbase
    }

    /// The restriction under which this transaction, mined at `spend_height`,
    /// spends coinbase outputs.
    pub open spec fn coinbase_spend_restriction(self, spend_height: Height) -> CoinbaseSpendRestriction {
        if self.outputs.len() == 0 {
            CoinbaseSpendRestriction::OnlyShieldedOutputs { spend_height }
        } else {
            CoinbaseSpendRestriction::SomeTransparentOutputs
        }
    }

    /// The transaction without its transparent outputs.
    pub open spec fn without_outputs(self) -> TransactionView {
        TransactionView { outputs: Seq::empty(), ..self }
    }

    /// Whether `flow` gives one amount for each transparent output.
    pub open spec fn fits(self, flow: ValueFlowView) -> bool {
        flow.output_values.len() == self.outputs.len()
    }

    /// The transaction moving the value that `flow` says: each transparent
    /// output carries the amount given for it, each shielded bundle the net
    /// value given for its pool.
    pub open spec fn with_flow(self, flow: ValueFlowView) -> TransactionView {
        TransactionView {
            outputs: Seq::new(
                self.outputs.len(),
                |i: int|
                    OutputView {
                        value: flow.output_values[i],
                        lock_script: self.outputs[i].lock_script,
                    },
            ),
            sprout: ShieldedBundleView { value_balance: flow.sprout, ..self.sprout },
            sapling: ShieldedBundleView { value_balance: flow.sapling, ..self.sapling },
            orchard: ShieldedBundleView { value_balance: flow.orchard, ..self.orchard },
            ..self
        }
    }
}

impl Transaction {
    /// Whether the transaction spends a note of some shielded pool.
    pub fn has_shielded_inputs(&self) -> (r: bool)
        ensures
            r == self@.has_shielded_inputs(),
    {
        self.sprout.spends > 0 || self.sapling.spends > 0 || self.orchard.spends > 0
    }

    /// Whether the transaction creates a note in some shielded pool.
    pub fn has_shielded_outputs(&self) -> (r: bool)
        ensures
            r == self@.has_shielded_outputs(),
    {
        self.sprout.note_commitments.len() > 0 || self.sapling.note_commitments.len() > 0
            || self.orchard.note_commitments.len() > 0
    }

    /// Whether the transaction has an input of any kind.
    pub fn has_transparent_or_shielded_inputs(&self) -> (r: bool)
        ensures
            r == self@.has_transparent_or_shielded_inputs(),
    {
        self.inputs.len() > 0 || self.has_shielded_inputs()
    }

    /// Whether the transaction creates value: its one input is a coinbase input.
    pub fn is_coinbase(&self) -> (r: bool)
        ensures
            r == self@.is_coinbase(),
    {
        if self.inputs.len() != 1 {
            return false;
        }
        match &self.inputs[0] {
            Input::Coinbase { .. } => true,
            Input::PrevOut { .. } => false,
        }
    }

    /// The restriction under which this transaction, mined at `spend_height`,
    /// spends coinbase outputs.
    pub fn coinbase_spend_restriction(&self, spend_height: Height) -> (r: CoinbaseSpendRestriction)
        ensures
            r == self@.coinbase_spend_restriction(spend_height),
    {
        if self.outputs.len() == 0 {
            CoinbaseSpendRestriction::OnlyShieldedOutputs { spend_height }
        } else {
            CoinbaseSpendRestriction::SomeTransparentOutputs
        }
    }

    /// Removes the transparent outputs.
    pub fn clear_outputs(&mut self)
        ensures
            final(self)@ == old(self)@.without_outputs(),
    {
        self.outputs = Vec::new();
        assert(outputs_view(self.outputs@) =~= Seq::<OutputView>::empty());
    }
}

/// The values of a sequence of transactions.
pub open spec fn transactions_view(transactions: Seq<Transaction>) -> Seq<TransactionView> {
    transactions.map_values(|t: Transaction| t@)
}

} // verus!
