use chain_repair::block::{Block, Header, NoteRoots};
use chain_repair::chain::repair_transactions;
use chain_repair::collaborators::Collaborators;
use chain_repair::fix::{apply_flow, fix_generated_transaction, Fatal};
use chain_repair::ledger::Ledger;
use chain_repair::ledger_state::{LedgerState, LedgerStateOverride};
use chain_repair::parameters::{Digest, Height, Network};
use chain_repair::select::allow_all_transparent_coinbase_spends;
use chain_repair::transaction::{ShieldedBundle, Transaction};
use chain_repair::transparent::{CoinbaseSpendRestriction, Input, OrderedUtxo, OutPoint, Output};
use chain_repair::tree::NoteCommitmentTree;
use chain_repair::value::{ValueBalance, ValueFlow};

/// Folds bytes into a digest. Different inputs give different digests in
/// every case these tests use.
fn fold(bytes: &[u8]) -> Digest {
    let mut out = [0u8; 32];
    let mut carry: u8 = 17;
    for (i, byte) in bytes.iter().enumerate() {
        let j = i % 32;
        carry = carry.wrapping_mul(31).wrapping_add(*byte);
        out[j] = out[j].wrapping_mul(7).wrapping_add(carry);
    }
    out
}

/// Collaborators with simple digests and plain value accounting: the
/// transparent pool gains what a transaction creates and loses what it
/// spends, and each shielded pool loses the net value that leaves it.
struct Plain;

impl Collaborators for Plain {
    fn transaction_hash(&self, transaction: &Transaction) -> Digest {
        fold(format!("tx{:?}", transaction).as_bytes())
    }

    fn repair_values(
        &self,
        transaction: &Transaction,
        pools: &ValueBalance,
        spent: &Vec<(OutPoint, Output)>,
    ) -> Option<(ValueFlow, ValueBalance)> {
        let spent_total: i64 = spent.iter().map(|s| s.1.value as i64).sum();
        let created: i64 = transaction.outputs.iter().map(|o| o.value as i64).sum();
        let flow = ValueFlow {
            output_values: transaction.outputs.iter().map(|o| o.value).collect(),
            sprout: transaction.sprout.value_balance,
            sapling: transaction.sapling.value_balance,
            orchard: transaction.orchard.value_balance,
        };
        let after = ValueBalance {
            transparent: pools.transparent - spent_total + created,
            sprout: pools.sprout - transaction.sprout.value_balance,
            sapling: pools.sapling - transaction.sapling.value_balance,
            orchard: pools.orchard - transaction.orchard.value_balance,
        };
        Some((flow, after))
    }

    fn block_hash(&self, block: &Block) -> Digest {
        fold(format!("block{:?}", block.header).as_bytes())
    }

    fn auth_data_root(&self, transactions: &Vec<Transaction>) -> Digest {
        let mut bytes = Vec::new();
        for transaction in transactions {
            bytes.extend_from_slice(&transaction.authorization);
            bytes.push(255);
        }
        fold(&bytes)
    }

    fn block_commitments_digest(&self, history_root: &Digest, auth_data_root: &Digest) -> Digest {
        let mut bytes = history_root.to_vec();
        bytes.extend_from_slice(auth_data_root);
        fold(&bytes)
    }

    fn sapling_root(&self, leaves: &Vec<Digest>) -> Digest {
        fold(format!("sapling{:?}", leaves).as_bytes())
    }

    fn orchard_root(&self, leaves: &Vec<Digest>) -> Digest {
        fold(format!("orchard{:?}", leaves).as_bytes())
    }

    fn history_root(&self, blocks: &Vec<Block>, roots: &Vec<NoteRoots>) -> Option<Digest> {
        if blocks.is_empty() {
            None
        } else {
            Some(fold(format!("history{:?}{:?}", blocks, roots).as_bytes()))
        }
    }
}

/// Collaborators that find no flow of value for any transaction.
struct NoFlow;

impl Collaborators for NoFlow {
    fn transaction_hash(&self, transaction: &Transaction) -> Digest {
        Plain.transaction_hash(transaction)
    }

    fn repair_values(
        &self,
        _transaction: &Transaction,
        _pools: &ValueBalance,
        _spent: &Vec<(OutPoint, Output)>,
    ) -> Option<(ValueFlow, ValueBalance)> {
        None
    }

    fn block_hash(&self, block: &Block) -> Digest {
        Plain.block_hash(block)
    }

    fn auth_data_root(&self, transactions: &Vec<Transaction>) -> Digest {
        Plain.auth_data_root(transactions)
    }

    fn block_commitments_digest(&self, history_root: &Digest, auth_data_root: &Digest) -> Digest {
        Plain.block_commitments_digest(history_root, auth_data_root)
    }

    fn sapling_root(&self, leaves: &Vec<Digest>) -> Digest {
        Plain.sapling_root(leaves)
    }

    fn orchard_root(&self, leaves: &Vec<Digest>) -> Digest {
        Plain.orchard_root(leaves)
    }

    fn history_root(&self, blocks: &Vec<Block>, roots: &Vec<NoteRoots>) -> Option<Digest> {
        Plain.history_root(blocks, roots)
    }
}

/// Collaborators whose flow of value has one amount too many.
struct WrongFlow;

impl Collaborators for WrongFlow {
    fn transaction_hash(&self, transaction: &Transaction) -> Digest {
        Plain.transaction_hash(transaction)
    }

    fn repair_values(
        &self,
        transaction: &Transaction,
        pools: &ValueBalance,
        spent: &Vec<(OutPoint, Output)>,
    ) -> Option<(ValueFlow, ValueBalance)> {
        let (mut flow, after) = Plain.repair_values(transaction, pools, spent).unwrap();
        flow.output_values.push(1);
        Some((flow, after))
    }

    fn block_hash(&self, block: &Block) -> Digest {
        Plain.block_hash(block)
    }

    fn auth_data_root(&self, transactions: &Vec<Transaction>) -> Digest {
        Plain.auth_data_root(transactions)
    }

    fn block_commitments_digest(&self, history_root: &Digest, auth_data_root: &Digest) -> Digest {
        Plain.block_commitments_digest(history_root, auth_data_root)
    }

    fn sapling_root(&self, leaves: &Vec<Digest>) -> Digest {
        Plain.sapling_root(leaves)
    }

    fn orchard_root(&self, leaves: &Vec<Digest>) -> Digest {
        Plain.orchard_root(leaves)
    }

    fn history_root(&self, blocks: &Vec<Block>, roots: &Vec<NoteRoots>) -> Option<Digest> {
        Plain.history_root(blocks, roots)
    }
}

fn no_bundle() -> ShieldedBundle {
    ShieldedBundle { spends: 0, note_commitments: Vec::new(), value_balance: 0 }
}

fn coinbase_transaction(height: u32, value: u64) -> Transaction {
    Transaction {
        inputs: vec![Input::Coinbase { height: Height(height), data: vec![height as u8], sequence: 0 }],
        outputs: vec![Output { value, lock_script: vec![1, 2, 3] }],
        sprout: no_bundle(),
        sapling: no_bundle(),
        orchard: no_bundle(),
        authorization: vec![height as u8, 9],
    }
}

fn spending_transaction(outputs: Vec<Output>) -> Transaction {
    Transaction {
        inputs: vec![Input::PrevOut {
            outpoint: OutPoint { hash: [7u8; 32], index: 5 },
            unlock_script: vec![4, 5],
            sequence: 11,
        }],
        outputs,
        sprout: no_bundle(),
        sapling: no_bundle(),
        orchard: no_bundle(),
        authorization: vec![8],
    }
}

fn candidate_header(tag: u8) -> Header {
    Header {
        version: 4,
        previous_block_hash: [tag; 32],
        merkle_root: [tag.wrapping_add(1); 32],
        commitment_bytes: [tag.wrapping_add(2); 32],
        time: 1_600_000_000 + tag as u32,
        difficulty_threshold: 0x1f07_ffff,
        nonce: [tag.wrapping_add(3); 32],
        solution: vec![tag; 8],
    }
}

fn candidate(tag: u8, transactions: Vec<Transaction>) -> Block {
    Block { header: candidate_header(tag), transactions }
}

fn settings(height: u32, network: Network) -> LedgerState {
    LedgerState::with_override(
        LedgerStateOverride {
            height_override: None,
            previous_block_hash_override: None,
            network_upgrade_override: None,
            transaction_version_override: None,
            transaction_has_valid_network_upgrade: false,
            always_has_coinbase: true,
        },
        Height(height),
        network,
        false,
        true,
    )
}

fn three_block_candidates() -> Vec<Block> {
    vec![
        candidate(10, vec![coinbase_transaction(1, 50)]),
        candidate(
            20,
            vec![
                coinbase_transaction(2, 50),
                spending_transaction(vec![Output { value: 30, lock_script: vec![6] }]),
            ],
        ),
        candidate(30, vec![coinbase_transaction(3, 50)]),
    ]
}

#[test]
fn three_block_chain_spends_the_first_coinbase_output() {
    let chain = Block::partial_chain_strategy(
        settings(1, Network::mainnet()),
        three_block_candidates(),
        allow_all_transparent_coinbase_spends,
        false,
        &Plain,
    )
    .unwrap();

    assert_eq!(chain.len(), 3);
    assert_eq!(chain[0].transactions.len(), 1);
    assert_eq!(chain[1].transactions.len(), 2);
    assert_eq!(chain[2].transactions.len(), 1);

    // the first block keeps its own previous-block hash, the others are linked
    assert_eq!(chain[0].header.previous_block_hash, [10u8; 32]);
    assert_eq!(chain[1].header.previous_block_hash, Plain.block_hash(&chain[0]));
    assert_eq!(chain[2].header.previous_block_hash, Plain.block_hash(&chain[1]));

    // the spend is bound to the coinbase output of the first block
    let first_coinbase = Plain.transaction_hash(&chain[0].transactions[0]);
    assert_eq!(
        chain[1].transactions[1].inputs,
        vec![Input::PrevOut {
            outpoint: OutPoint { hash: first_coinbase, index: 0 },
            unlock_script: vec![4, 5],
            sequence: 11,
        }]
    );
    assert_eq!(chain[1].transactions[1].outputs, vec![Output { value: 30, lock_script: vec![6] }]);

    // without valid commitments the candidates' commitments stay
    assert_eq!(chain[0].header.commitment_bytes, [12u8; 32]);
    assert_eq!(chain[1].header.commitment_bytes, [22u8; 32]);
}

#[test]
fn spent_outpoint_leaves_the_ledger_and_pools_stay_non_negative() {
    let mut utxos = Ledger::new();
    let mut pools = ValueBalance::zero();
    let check = allow_all_transparent_coinbase_spends;

    let first = fix_generated_transaction(coinbase_transaction(1, 50), 0, Height(1), &mut pools, &mut utxos, check, &Plain)
        .unwrap()
        .unwrap();
    let first_outpoint = OutPoint { hash: Plain.transaction_hash(&first), index: 0 };
    assert_eq!(utxos.len(), 1);
    assert!(utxos.contains_key(&first_outpoint));
    assert_eq!(pools, ValueBalance { transparent: 50, sprout: 0, sapling: 0, orchard: 0 });

    let second = fix_generated_transaction(coinbase_transaction(2, 50), 0, Height(2), &mut pools, &mut utxos, check, &Plain)
        .unwrap()
        .unwrap();
    let second_outpoint = OutPoint { hash: Plain.transaction_hash(&second), index: 0 };
    assert_eq!(utxos.len(), 2);
    assert_eq!(pools.transparent, 100);

    let spend = fix_generated_transaction(
        spending_transaction(vec![Output { value: 30, lock_script: vec![6] }]),
        1,
        Height(2),
        &mut pools,
        &mut utxos,
        check,
        &Plain,
    )
    .unwrap()
    .unwrap();
    assert_eq!(spend.inputs[0].outpoint(), Some(first_outpoint));
    assert!(!utxos.contains_key(&first_outpoint));
    assert!(utxos.contains_key(&second_outpoint));
    let created = OutPoint { hash: Plain.transaction_hash(&spend), index: 0 };
    assert!(utxos.contains_key(&created));
    assert_eq!(utxos.len(), 2);
    // the walking order is that of arrival
    assert_eq!(utxos.outpoint_at(0), second_outpoint);
    assert_eq!(utxos.outpoint_at(1), created);
    let recorded = utxos.utxo_at(1);
    assert_eq!(recorded.utxo.output, Output { value: 30, lock_script: vec![6] });
    assert_eq!(recorded.utxo.height, Height(2));
    assert!(!recorded.utxo.from_coinbase);
    assert_eq!(recorded.tx_index_in_block, 1);
    assert!(utxos.utxo_at(0).utxo.from_coinbase);
    // 100 - 50 spent + 30 created
    assert_eq!(pools, ValueBalance { transparent: 80, sprout: 0, sapling: 0, orchard: 0 });
    assert!(pools.is_non_negative());
}

#[test]
fn unmatched_input_without_shielded_data_is_dropped() {
    let mut utxos = Ledger::new();
    let mut pools = ValueBalance::zero();
    let outcome = fix_generated_transaction(
        spending_transaction(vec![Output { value: 30, lock_script: vec![6] }]),
        0,
        Height(5),
        &mut pools,
        &mut utxos,
        allow_all_transparent_coinbase_spends,
        &Plain,
    );
    assert_eq!(outcome, Ok(None));
    assert!(utxos.is_empty());
    assert_eq!(pools, ValueBalance::zero());
}

#[test]
fn dropped_transaction_leaves_its_block() {
    let candidates = vec![candidate(
        1,
        vec![
            spending_transaction(vec![Output { value: 30, lock_script: vec![6] }]),
            coinbase_transaction(7, 50),
            spending_transaction(vec![Output { value: 20, lock_script: vec![] }]),
        ],
    )];
    let chain = Block::partial_chain_strategy(
        settings(7, Network::mainnet()),
        candidates,
        allow_all_transparent_coinbase_spends,
        false,
        &Plain,
    )
    .unwrap();
    // the first transaction finds nothing to spend; the third spends the
    // coinbase output that the second created
    assert_eq!(chain[0].transactions.len(), 2);
    assert_eq!(chain[0].transactions[0], coinbase_transaction(7, 50));
    assert_eq!(
        chain[0].transactions[1].inputs[0].outpoint(),
        Some(OutPoint { hash: Plain.transaction_hash(&chain[0].transactions[0]), index: 0 })
    );
}

#[test]
fn unmatched_input_is_dropped_but_shielded_spend_keeps_the_transaction() {
    let mut transaction = spending_transaction(Vec::new());
    transaction.sapling = ShieldedBundle { spends: 1, note_commitments: vec![[3u8; 32]], value_balance: 0 };
    let mut utxos = Ledger::new();
    let mut pools = ValueBalance::zero();
    let kept = fix_generated_transaction(
        transaction,
        0,
        Height(5),
        &mut pools,
        &mut utxos,
        allow_all_transparent_coinbase_spends,
        &Plain,
    )
    .unwrap()
    .unwrap();
    assert!(kept.inputs.is_empty());
    assert_eq!(kept.sapling.spends, 1);
}

#[test]
fn genesis_transaction_is_kept_but_leaves_no_trace() {
    let mut utxos = Ledger::new();
    let mut pools = ValueBalance::zero();
    let kept = fix_generated_transaction(
        coinbase_transaction(0, 50),
        0,
        Height(0),
        &mut pools,
        &mut utxos,
        allow_all_transparent_coinbase_spends,
        &Plain,
    )
    .unwrap();
    assert_eq!(kept, Some(coinbase_transaction(0, 50)));
    assert!(utxos.is_empty());
    assert_eq!(pools, ValueBalance::zero());
}

#[test]
fn missing_flow_is_fatal() {
    let mut utxos = Ledger::new();
    let mut pools = ValueBalance::zero();
    let outcome = fix_generated_transaction(
        coinbase_transaction(3, 50),
        4,
        Height(3),
        &mut pools,
        &mut utxos,
        allow_all_transparent_coinbase_spends,
        &NoFlow,
    );
    assert_eq!(outcome, Err(Fatal::ValueRepair { height: Height(3), tx_index_in_block: 4 }));
    assert_eq!(pools, ValueBalance::zero());
}

#[test]
fn flow_that_does_not_fit_is_fatal() {
    let mut utxos = Ledger::new();
    let mut pools = ValueBalance::zero();
    let outcome = fix_generated_transaction(
        coinbase_transaction(3, 50),
        2,
        Height(3),
        &mut pools,
        &mut utxos,
        allow_all_transparent_coinbase_spends,
        &WrongFlow,
    );
    assert_eq!(outcome, Err(Fatal::ValueRepair { height: Height(3), tx_index_in_block: 2 }));
}

#[test]
fn negative_pool_is_fatal() {
    // the shielded bundle takes 5 out of an empty Sapling pool
    let mut transaction = coinbase_transaction(3, 50);
    transaction.sapling = ShieldedBundle { spends: 1, note_commitments: Vec::new(), value_balance: 5 };
    let mut utxos = Ledger::new();
    let mut pools = ValueBalance::zero();
    let outcome = fix_generated_transaction(
        transaction,
        1,
        Height(3),
        &mut pools,
        &mut utxos,
        allow_all_transparent_coinbase_spends,
        &Plain,
    );
    assert_eq!(outcome, Err(Fatal::ValueRepair { height: Height(3), tx_index_in_block: 1 }));
    assert_eq!(pools, ValueBalance::zero());
    assert!(utxos.is_empty());
}

#[test]
fn fatal_transaction_ends_the_chain() {
    let outcome = Block::partial_chain_strategy(
        settings(1, Network::mainnet()),
        three_block_candidates(),
        allow_all_transparent_coinbase_spends,
        false,
        &NoFlow,
    );
    assert_eq!(outcome, Err(Fatal::ValueRepair { height: Height(1), tx_index_in_block: 0 }));
}

#[test]
fn apply_flow_sets_amounts_and_keeps_scripts() {
    let mut transaction = spending_transaction(vec![
        Output { value: 30, lock_script: vec![6] },
        Output { value: 40, lock_script: vec![7, 7] },
    ]);
    let flow = ValueFlow { output_values: vec![1, 0], sprout: -2, sapling: 3, orchard: -4 };
    apply_flow(&mut transaction, &flow);
    assert_eq!(
        transaction.outputs,
        vec![Output { value: 1, lock_script: vec![6] }, Output { value: 0, lock_script: vec![7, 7] }]
    );
    assert_eq!(transaction.sprout.value_balance, -2);
    assert_eq!(transaction.sapling.value_balance, 3);
    assert_eq!(transaction.orchard.value_balance, -4);
    assert_eq!(transaction.inputs, spending_transaction(Vec::new()).inputs);
}

#[test]
fn two_runs_give_the_same_chain() {
    let run = || {
        Block::partial_chain_strategy(
            settings(903_000, Network::mainnet()),
            three_block_candidates(),
            allow_all_transparent_coinbase_spends,
            true,
            &Plain,
        )
    };
    assert_eq!(run(), run());
}

#[test]
fn block_below_heartwood_carries_the_reserved_commitment() {
    let chain = Block::partial_chain_strategy(
        settings(1, Network::mainnet()),
        three_block_candidates(),
        allow_all_transparent_coinbase_spends,
        true,
        &Plain,
    )
    .unwrap();
    let mut reserved = [0u8; 32];
    reserved[0] = 1;
    for block in &chain {
        assert_eq!(block.header.commitment_bytes, reserved);
    }
    assert_eq!(chain[1].header.previous_block_hash, Plain.block_hash(&chain[0]));
}

#[test]
fn block_at_heartwood_activation_carries_the_zero_commitment() {
    // the chain starts one block below the activation height, so that the
    // trees and the history are not empty when the activation block comes
    let mut candidates = three_block_candidates();
    candidates[0].transactions[0].sapling =
        ShieldedBundle { spends: 0, note_commitments: vec![[5u8; 32]], value_balance: 0 };
    let chain = Block::partial_chain_strategy(
        settings(902_999, Network::mainnet()),
        candidates,
        allow_all_transparent_coinbase_spends,
        true,
        &Plain,
    )
    .unwrap();
    let mut reserved = [0u8; 32];
    reserved[0] = 1;
    assert_eq!(chain[0].header.commitment_bytes, reserved);
    assert_eq!(chain[1].header.commitment_bytes, [0u8; 32]);
    assert_ne!(chain[2].header.commitment_bytes, [0u8; 32]);
}

#[test]
fn block_above_heartwood_carries_the_earlier_history_root() {
    let mut candidates = three_block_candidates();
    candidates[0].transactions[0].sapling =
        ShieldedBundle { spends: 0, note_commitments: vec![[5u8; 32], [6u8; 32]], value_balance: 0 };
    candidates[1].transactions[0].orchard =
        ShieldedBundle { spends: 0, note_commitments: vec![[8u8; 32]], value_balance: 0 };
    let chain = Block::partial_chain_strategy(
        settings(903_001, Network::mainnet()),
        candidates,
        allow_all_transparent_coinbase_spends,
        true,
        &Plain,
    )
    .unwrap();

    // before the first block there is no history tree: the root is all zeroes
    assert_eq!(chain[0].header.commitment_bytes, [0u8; 32]);

    // the first block makes the tree, with the note roots after its own
    // commitments
    let after_first = NoteRoots {
        sapling: Plain.sapling_root(&vec![[5u8; 32], [6u8; 32]]),
        orchard: Plain.orchard_root(&Vec::new()),
    };
    let history_one = Plain.history_root(&chain[..1].to_vec(), &vec![after_first]).unwrap();
    assert_eq!(chain[1].header.commitment_bytes, history_one);

    // the second block is pushed with the note roots before its own
    // commitments
    let history_two = Plain.history_root(&chain[..2].to_vec(), &vec![after_first, after_first]).unwrap();
    assert_eq!(chain[2].header.commitment_bytes, history_two);
}

#[test]
fn block_from_nu5_on_carries_the_block_commitments_digest() {
    let chain = Block::partial_chain_strategy(
        settings(1_687_103, Network::mainnet()),
        three_block_candidates(),
        allow_all_transparent_coinbase_spends,
        true,
        &Plain,
    )
    .unwrap();
    let roots = NoteRoots { sapling: Plain.sapling_root(&Vec::new()), orchard: Plain.orchard_root(&Vec::new()) };

    // one block below the activation height: the history root, here all zeroes
    assert_eq!(chain[0].header.commitment_bytes, [0u8; 32]);

    // at the activation height and above: the digest of history root and
    // authorizing data root
    let history_one = Plain.history_root(&chain[..1].to_vec(), &vec![roots]).unwrap();
    let auth_one = Plain.auth_data_root(&chain[1].transactions);
    assert_eq!(chain[1].header.commitment_bytes, Plain.block_commitments_digest(&history_one, &auth_one));

    let history_two = Plain.history_root(&chain[..2].to_vec(), &vec![roots, roots]).unwrap();
    let auth_two = Plain.auth_data_root(&chain[2].transactions);
    assert_eq!(chain[2].header.commitment_bytes, Plain.block_commitments_digest(&history_two, &auth_two));
}

#[test]
fn network_without_nu5_keeps_the_history_root() {
    let mut network = Network::mainnet();
    network.nu5 = None;
    let chain = Block::partial_chain_strategy(
        settings(1_687_104, network),
        three_block_candidates(),
        allow_all_transparent_coinbase_spends,
        true,
        &Plain,
    )
    .unwrap();
    let roots = NoteRoots { sapling: Plain.sapling_root(&Vec::new()), orchard: Plain.orchard_root(&Vec::new()) };
    let history_one = Plain.history_root(&chain[..1].to_vec(), &vec![roots]).unwrap();
    assert_eq!(chain[1].header.commitment_bytes, history_one);
}

#[test]
fn genesis_block_does_not_fold_its_commitments() {
    let mut candidates = three_block_candidates();
    candidates[0].transactions[0] = coinbase_transaction(0, 50);
    candidates[0].transactions[0].sapling =
        ShieldedBundle { spends: 0, note_commitments: vec![[5u8; 32]], value_balance: 0 };
    let mut network = Network::mainnet();
    network.overwinter = Height(2);
    network.sapling = Height(3);
    network.blossom = Height(4);
    network.heartwood = Height(5);
    network.canopy = Height(6);
    network.nu5 = None;
    // heights 0, 1, 2 are below Heartwood; build a longer chain to reach it
    for tag in 3u8..8 {
        candidates.push(candidate(tag, vec![coinbase_transaction(tag as u32, 50)]));
    }
    let chain = Block::partial_chain_strategy(
        settings(0, network),
        candidates,
        allow_all_transparent_coinbase_spends,
        true,
        &Plain,
    )
    .unwrap();
    assert_eq!(chain.len(), 8);
    assert_eq!(chain[5].header.commitment_bytes, [0u8; 32]);
    // the Sapling tree is still empty: the genesis commitments were skipped
    let empty = NoteRoots { sapling: Plain.sapling_root(&Vec::new()), orchard: Plain.orchard_root(&Vec::new()) };
    let roots = vec![empty; 6];
    let history = Plain.history_root(&chain[..6].to_vec(), &roots).unwrap();
    assert_eq!(chain[6].header.commitment_bytes, history);
    // the genesis output is not recorded, so the spend in the second block
    // binds to that block's own coinbase output
    assert_eq!(
        chain[1].transactions[1].inputs[0].outpoint(),
        Some(OutPoint { hash: Plain.transaction_hash(&chain[1].transactions[0]), index: 0 })
    );
}

#[test]
fn full_tree_is_fatal() {
    let mut transaction = coinbase_transaction(4, 50);
    transaction.orchard =
        ShieldedBundle { spends: 0, note_commitments: vec![[1u8; 32], [2u8; 32]], value_balance: 0 };
    let mut utxos = Ledger::new();
    let mut pools = ValueBalance::zero();
    let mut sapling = NoteCommitmentTree::new();
    let mut orchard = NoteCommitmentTree::with_capacity(1);
    let outcome = repair_transactions(
        vec![coinbase_transaction(4, 50), transaction],
        Height(4),
        &mut pools,
        &mut utxos,
        &mut sapling,
        &mut orchard,
        true,
        allow_all_transparent_coinbase_spends,
        &Plain,
    );
    assert_eq!(outcome, Err(Fatal::TreeFull { height: Height(4), tx_index_in_block: 1 }));
}

#[test]
fn kept_commitments_reach_the_trees_in_order() {
    let mut first = coinbase_transaction(4, 50);
    first.sapling = ShieldedBundle { spends: 0, note_commitments: vec![[1u8; 32], [2u8; 32]], value_balance: 0 };
    let dropped = {
        let mut transaction = spending_transaction(Vec::new());
        transaction.inputs.clear();
        transaction.orchard = ShieldedBundle { spends: 0, note_commitments: vec![[9u8; 32]], value_balance: 0 };
        transaction
    };
    let mut last = coinbase_transaction(4, 10);
    last.sapling = ShieldedBundle { spends: 0, note_commitments: vec![[3u8; 32]], value_balance: 0 };
    last.orchard = ShieldedBundle { spends: 0, note_commitments: vec![[4u8; 32]], value_balance: 0 };
    let mut utxos = Ledger::new();
    let mut pools = ValueBalance::zero();
    let mut sapling = NoteCommitmentTree::new();
    let mut orchard = NoteCommitmentTree::new();
    let kept = repair_transactions(
        vec![first, dropped, last],
        Height(4),
        &mut pools,
        &mut utxos,
        &mut sapling,
        &mut orchard,
        true,
        allow_all_transparent_coinbase_spends,
        &Plain,
    )
    .unwrap();
    assert_eq!(kept.len(), 2);
    assert_eq!(sapling.leaves(), &vec![[1u8; 32], [2u8; 32], [3u8; 32]]);
    assert_eq!(orchard.leaves(), &vec![[4u8; 32]]);
}

#[test]
fn coinbase_output_is_spent_only_without_transparent_outputs() {
    // the rule of a validator: a coinbase output can be spent only by a
    // transaction without transparent outputs, and only once it is mature
    let rule = |_outpoint: OutPoint, restriction: CoinbaseSpendRestriction, utxo: &OrderedUtxo| {
        if !utxo.utxo.from_coinbase {
            return Ok(());
        }
        match restriction {
            CoinbaseSpendRestriction::OnlyShieldedOutputs { spend_height }
                if spend_height.0 >= utxo.utxo.height.0 + 100 => Ok(()),
            _ => Err(()),
        }
    };
    let mut utxos = Ledger::new();
    let mut pools = ValueBalance::zero();
    fix_generated_transaction(coinbase_transaction(1, 50), 0, Height(1), &mut pools, &mut utxos, rule, &Plain)
        .unwrap();

    // too early: the input is dropped, and with it the transaction
    let mut shielding = spending_transaction(vec![Output { value: 30, lock_script: vec![6] }]);
    shielding.sapling = ShieldedBundle { spends: 0, note_commitments: vec![[3u8; 32]], value_balance: -50 };
    let early = fix_generated_transaction(shielding.clone(), 1, Height(100), &mut pools, &mut utxos, rule, &Plain);
    assert_eq!(early, Ok(None));
    assert_eq!(utxos.len(), 1);

    // mature: the output is spent, and the transparent outputs are given up
    let kept = fix_generated_transaction(shielding, 1, Height(101), &mut pools, &mut utxos, rule, &Plain)
        .unwrap()
        .unwrap();
    assert_eq!(kept.inputs.len(), 1);
    assert!(kept.outputs.is_empty());
    assert!(utxos.is_empty());
    assert_eq!(pools, ValueBalance { transparent: 0, sprout: 0, sapling: 50, orchard: 0 });
}
