//! The running balance of each value pool of a chain.

use vstd::prelude::*;

verus! {

/// The value held in the transparent pool and in each shielded pool.
#[derive(Clone, Copy, Debug, PartialEq, Eq, Structural)]
pub struct ValueBalance {
    pub transparent: i64,
    pub sprout: i64,
    pub sapling: i64,
    pub orchard: i64,
}

impl ValueBalance {
    /// No pool holds less than nothing.
    pub open spec fn non_negative(self) -> bool {
        self.transparent >= 0 && self.sprout >= 0 && self.sapling >= 0 && self.orchard >= 0
    }

    /// The balance of a chain in which no value has moved yet.
    pub fn zero() -> (pools: ValueBalance)
        ensures
            pools == (ValueBalance { transparent: 0, sprout: 0, sapling: 0, orchard: 0 }),
            pools.non_negative(),
    {
        ValueBalance { transparent: 0, sprout: 0, sapling: 0, orchard: 0 }
    }

    /// Whether no pool holds less than nothing.
    pub fn is_non_negative(&self) -> (ok: bool)
        ensures
            ok == self.non_negative(),
    {
        self.transparent >= 0 && self.sprout >= 0 && self.sapling >= 0 && self.orchard >= 0
    }
}

/// The value that one transaction moves: the amount of each transparent
/// output, and the net value that leaves each shielded pool.
#[derive(Clone, Debug, PartialEq, Eq)]
pub struct ValueFlow {
    pub output_values: Vec<u64>,
    pub sprout: i64,
    pub sapling: i64,
    pub orchard: i64,
}

/// The mathematical value of a [`ValueFlow`].
pub struct ValueFlowView {
    pub output_values: Seq<u64>,
    pub sprout: i64,
    pub sapling: i64,
    pub orchard: i64,
}

impl View for ValueFlow {
    type V = ValueFlowView;

    open spec fn view(&self) -> ValueFlowView {
        ValueFlowView {
            output_values: self.output_values@,
            sprout: self.sprout,
            sapling: self.sapling,
            orchard: self.orchard,
        }
    }
}

} // verus!
