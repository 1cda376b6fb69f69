//! Repairs independently generated candidate blocks into a linked chain that
//! keeps the bookkeeping rules a validator relies on: unspent outputs are spent
//! once, pool balances never go negative, and header commitments follow the
//! network upgrade that is active at each height.

pub mod parameters;
pub mod transparent;
pub mod ledger;
pub mod value;
pub mod transaction;
pub mod block;
pub mod collaborators;
pub mod rules;
pub mod tree;
pub mod select;
pub mod rebind;
pub mod fix;
pub mod commitment;
pub mod ledger_state;
pub mod chain;
pub mod invariants;
