//! Transparent value: outpoints, outputs, inputs and unspent outputs.

use vstd::prelude::*;
use crate::parameters::{Digest, Height, digest_eq};

verus! {

/// A reference to one output of one transaction.
#[derive(Clone, Copy, Debug, PartialEq, Eq, Hash)]
pub struct OutPoint {
    /// The id of the transaction that created the output.
    pub hash: Digest,
    /// The position of the output among that transaction's outputs.
    pub index: u32,
}

impl OutPoint {
    /// Whether two outpoints name the same output.
    pub fn same(&self, other: &OutPoint) -> (r: bool)
        ensures
            r == (*self == *other),
    {
        self.index == other.index && digest_eq(&self.hash, &other.hash)
    }
}

/// A transparent output: an amount and the condition under which it can be spent.
#[derive(Clone, Debug, PartialEq, Eq)]
pub struct Output {
    pub value: u64,
    pub lock_script: Vec<u8>,
}

/// The mathematical value of an [`Output`].
pub struct OutputView {
    pub value: u64,
    pub lock_script: Seq<u8>,
}

impl View for Output {
    type V = OutputView;

    open spec fn view(&self) -> OutputView {
        OutputView { value: self.value, lock_script: self.lock_script@ }
    }
}

impl Output {
    /// A copy of this output.
    pub fn duplicate(&self) -> (copy: Output)
        ensures
            copy@ == self@,
    {
        Output { value: self.value, lock_script: self.lock_script.clone() }
    }
}

/// An unspent output, with the height at which it was created and whether a
/// coinbase transaction created it.
#[derive(Clone, Debug, PartialEq, Eq)]
pub struct Utxo {
    pub output: Output,
    pub height: Height,
    pub from_coinbase: bool,
}

/// The mathematical value of a [`Utxo`].
pub struct UtxoView {
    pub output: OutputView,
    pub height: Height,
    pub from_coinbase: bool,
}

impl View for Utxo {
    type V = UtxoView;

    open spec fn view(&self) -> UtxoView {
        UtxoView { output: self.output@, height: self.height, from_coinbase: self.from_coinbase }
    }
}

/// An unspent output together with the position in its block of the
/// transaction that created it.
#[derive(Clone, Debug, PartialEq, Eq)]
pub struct OrderedUtxo {
    pub utxo: Utxo,
    pub tx_index_in_block: usize,
}

/// The mathematical value of an [`OrderedUtxo`].
pub struct OrderedUtxoView {
    pub utxo: UtxoView,
    pub tx_index_in_block: usize,
}

impl View for OrderedUtxo {
    type V = OrderedUtxoView;

    open spec fn view(&self) -> OrderedUtxoView {
        OrderedUtxoView { utxo: self.utxo@, tx_index_in_block: self.tx_index_in_block }
    }
}

impl OrderedUtxo {
    /// An unspent output created at `height` by the transaction at
    /// `tx_index_in_block`.
    pub fn new(output: Output, height: Height, from_coinbase: bool, tx_index_in_block: usize) -> (made: OrderedUtxo)
        ensures
            made@ == (OrderedUtxoView {
                utxo: UtxoView { output: output@, height, from_coinbase },
                tx_index_in_block,
            }),
    {
        OrderedUtxo { utxo: Utxo { output, height, from_coinbase }, tx_index_in_block }
    }
}

/// What a transaction must look like to spend a coinbase output.
#[derive(Clone, Copy, Debug, PartialEq, Eq, Structural)]
pub enum CoinbaseSpendRestriction {
    /// The spending transaction has transparent outputs.
    SomeTransparentOutputs,
    /// The spending transaction has no transparent outputs, and is mined at
    /// `spend_height`.
    OnlyShieldedOutputs { spend_height: Height },
}

/// A transparent input.
#[derive(Clone, Debug, PartialEq, Eq)]
pub enum Input {
    /// Spends the output that `outpoint` names.
    PrevOut { outpoint: OutPoint, unlock_script: Vec<u8>, sequence: u32 },
    /// Creates new value in the block at `height`.
    Coinbase { height: Height, data: Vec<u8>, sequence: u32 },
}

/// The mathematical value of an [`Input`].
pub enum InputView {
    PrevOut { outpoint: OutPoint, unlock_script: Seq<u8>, sequence: u32 },
    Coinbase { height: Height, data: Seq<u8>, sequence: u32 },
}

impl View for Input {
    type V = InputView;

    open spec fn view(&self) -> InputView {
        match *self {
            Input::PrevOut { outpoint, unlock_script, sequence } => InputView::PrevOut {
                outpoint,
                unlock_script: unlock_script@,
                sequence,
            },
            Input::Coinbase { height, data, sequence } => InputView::Coinbase {
                height,
                data: data@,
                sequence,
            },
        }
    }
}

impl InputView {
    /// The outpoint this input spends, if it spends one.
    pub open spec fn outpoint(self) -> Option<OutPoint> {
        match self {
            InputView::PrevOut { outpoint, .. } => Some(outpoint),
            InputView::Coinbase { .. } => None,
        }
    }

    /// This input, spending `outpoint` instead. A coinbase input spends
    /// nothing and stays as it is.
    pub open spec fn with_outpoint(self, outpoint: OutPoint) -> InputView {
        match self {
            InputView::PrevOut { unlock_script, sequence, .. } => InputView::PrevOut {
                outpoint,
                unlock_script,
                sequence,
            },
            InputView::Coinbase { .. } => self,
        }
    }
}

impl Input {
    /// The outpoint this input spends, if it spends one.
    pub fn outpoint(&self) -> (spent: Option<OutPoint>)
        ensures
            spent == self@.outpoint(),
    {
        match self {
            Input::PrevOut { outpoint, .. } => Some(*outpoint),
            Input::Coinbase { .. } => None,
        }
    }

    /// Makes this input spend `new_outpoint`. A coinbase input is left alone.
    pub fn set_outpoint(self, new_outpoint: OutPoint) -> (rebound: Input)
        ensures
            rebound@ == self@.with_outpoint(new_outpoint),
    {
        match self {
            Input::PrevOut { outpoint: _, unlock_script, sequence } => Input::PrevOut {
                outpoint: new_outpoint,
                unlock_script,
                sequence,
            },
            Input::Coinbase { height, data, sequence } => Input::Coinbase { height, data, sequence },
        }
    }
}

/// The values of a sequence of inputs.
pub open spec fn inputs_view(inputs: Seq<Input>) -> Seq<InputView> {
    inputs.map_values(|i: Input| i@)
}

/// The values of a sequence of outputs.
pub open spec fn outputs_view(outputs: Seq<Output>) -> Seq<OutputView> {
    outputs.map_values(|o: Output| o@)
}

} // verus!
