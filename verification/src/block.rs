//! Blocks and their headers.

use vstd::prelude::*;
use crate::ledger_state::LedgerState;
use crate::parameters::{Digest, zero_digest, zeroed};
use crate::transaction::{Transaction, TransactionView, transactions_view};

verus! {

/// A block header.
#[derive(Clone, Debug, PartialEq, Eq)]
pub struct Header {
    pub version: u32,
    /// The hash of the block that this block follows.
    pub previous_block_hash: Digest,
    pub merkle_root: Digest,
    /// The commitment whose meaning depends on the network upgrade that is
    /// active at the block's height.
    pub commitment_bytes: Digest,
    pub time: u32,
    pub difficulty_threshold: u32,
    pub nonce: Digest,
    pub solution: Vec<u8>,
}

/// The mathematical value of a [`Header`].
pub struct HeaderView {
    pub version: u32,
    pub previous_block_hash: Digest,
    pub merkle_root: Digest,
    pub commitment_bytes: Digest,
    pub time: u32,
    pub difficulty_threshold: u32,
    pub nonce: Digest,
    pub solution: Seq<u8>,
}

impl View for Header {
    type V = HeaderView;

    open spec fn view(&self) -> HeaderView {
        HeaderView {
            version: self.version,
            previous_block_hash: self.previous_block_hash,
            merkle_root: self.merkle_root,
            commitment_bytes: self.commitment_bytes,
            time: self.time,
            difficulty_threshold: self.difficulty_threshold,
            nonce: self.nonce,
            solution: self.solution@,
        }
    }
}

impl Header {
    /// The previous-block hash of a header that is generated under
    /// `ledger_state`: the override if there is one, else all zeroes at
    /// height zero, else the generated hash.
    pub open spec fn previous_hash_under(ledger_state: LedgerState, generated: Digest) -> Digest {
        match ledger_state.previous_block_hash_override {
            Some(fixed) => fixed,
            None => if ledger_state.height.0 == 0 {
                zeroed()
            } else {
                generated
            },
        }
    }

    /// The header that generated field values make under `ledger_state`.
    /// Every field is as generated but the previous-block hash, which is
    /// that of [`Header::previous_hash_under`].
    pub fn generated(
        ledger_state: &LedgerState,
        version: u32,
        previous_block_hash: Digest,
        merkle_root: Digest,
        commitment_bytes: Digest,
        time: u32,
        difficulty_threshold: u32,
        nonce: Digest,
        solution: Vec<u8>,
    ) -> (header: Header)
        ensures
            header@ == (HeaderView {
                version,
                previous_block_hash: Header::previous_hash_under(*ledger_state, previous_block_hash),
                merkle_root,
                commitment_bytes,
                time,
                difficulty_threshold,
                nonce,
                solution: solution@,
            }),
    {
        let previous_block_hash = match ledger_state.previous_block_hash_override {
            Some(fixed) => fixed,
            None => if ledger_state.height.0 == 0 {
                zero_digest()
            } else {
                previous_block_hash
            },
        };
        Header {
            version,
            previous_block_hash,
            merkle_root,
            commitment_bytes,
            time,
            difficulty_threshold,
            nonce,
            solution,
        }
    }
}

/// A block: a header and the transactions it orders.
#[derive(Clone, Debug, PartialEq, Eq)]
pub struct Block {
    pub header: Header,
    pub transactions: Vec<Transaction>,
}

/// The mathematical value of a [`Block`].
pub struct BlockView {
    pub header: HeaderView,
    pub transactions: Seq<TransactionView>,
}

impl View for Block {
    type V = BlockView;

    open spec fn view(&self) -> BlockView {
        BlockView { header: self.header@, transactions: transactions_view(self.transactions@) }
    }
}

/// The values of a sequence of blocks.
pub open spec fn blocks_view(blocks: Seq<Block>) -> Seq<BlockView> {
    blocks.map_values(|b: Block| b@)
}

/// The roots of the two note commitment trees at one moment.
#[derive(Clone, Copy, Debug, PartialEq, Eq)]
pub struct NoteRoots {
    pub sapling: Digest,
    pub orchard: Digest,
}

} // verus!
