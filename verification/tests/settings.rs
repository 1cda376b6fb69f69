use chain_repair::block::Header;
use chain_repair::chain::{MAX_PARTIAL_CHAIN_BLOCKS, PREVOUTS_CHAIN_HEIGHT};
use chain_repair::commitment::{
    encode_commitment, kind_at, reserved_commitment, Commitment, CommitmentKind,
    InvalidChainHistoryActivationReserved,
};
use chain_repair::ledger_state::{LedgerState, LedgerStateOverride};
use chain_repair::parameters::{
    Height, Network, NetworkKind, NetworkUpgrade, MAX_HEIGHT, MIN_TRANSPARENT_COINBASE_MATURITY,
};
use chain_repair::value::ValueBalance;
use proptest::strategy::{BoxedStrategy, Strategy, ValueTree};
use proptest::test_runner::TestRunner;

fn samples(strategy: BoxedStrategy<LedgerState>) -> Vec<LedgerState> {
    let mut runner = TestRunner::deterministic();
    let mut out = Vec::new();
    for _ in 0..64 {
        out.push(strategy.new_tree(&mut runner).unwrap().current());
    }
    out
}

#[test]
fn upgrades_follow_the_activation_heights() {
    let network = Network::mainnet();
    assert_eq!(network.kind, NetworkKind::Mainnet);
    assert_eq!(network.current(Height(0)), NetworkUpgrade::Genesis);
    assert_eq!(network.current(Height(1)), NetworkUpgrade::BeforeOverwinter);
    assert_eq!(network.current(Height(347_499)), NetworkUpgrade::BeforeOverwinter);
    assert_eq!(network.current(Height(347_500)), NetworkUpgrade::Overwinter);
    assert_eq!(network.current(Height(419_200)), NetworkUpgrade::Sapling);
    assert_eq!(network.current(Height(653_600)), NetworkUpgrade::Blossom);
    assert_eq!(network.current(Height(902_999)), NetworkUpgrade::Blossom);
    assert_eq!(network.current(Height(903_000)), NetworkUpgrade::Heartwood);
    assert_eq!(network.current(Height(1_046_400)), NetworkUpgrade::Canopy);
    assert_eq!(network.current(Height(1_687_103)), NetworkUpgrade::Canopy);
    assert_eq!(network.current(Height(1_687_104)), NetworkUpgrade::Nu5);
    assert_eq!(network.current(Height(MAX_HEIGHT)), NetworkUpgrade::Nu5);
    assert_eq!(network.activation_height(NetworkUpgrade::Genesis), Some(Height(0)));
    assert_eq!(network.activation_height(NetworkUpgrade::BeforeOverwinter), Some(Height(1)));
    assert_eq!(network.activation_height(NetworkUpgrade::Heartwood), Some(Height(903_000)));
    assert_eq!(network.activation_height(NetworkUpgrade::Nu5), Some(Height(1_687_104)));

    let testnet = Network::testnet();
    assert_eq!(testnet.kind, NetworkKind::Testnet);
    assert_eq!(testnet.activation_height(NetworkUpgrade::Heartwood), Some(Height(903_800)));
    assert_eq!(testnet.current(Height(903_799)), NetworkUpgrade::Blossom);
    assert_eq!(Network::default(), Network::mainnet());
    assert_eq!(MIN_TRANSPARENT_COINBASE_MATURITY, 100);
}

#[test]
fn usual_chain_outlasts_the_maturity_of_a_coinbase_output() {
    assert_eq!(PREVOUTS_CHAIN_HEIGHT, 4);
    assert_eq!(MAX_PARTIAL_CHAIN_BLOCKS, MIN_TRANSPARENT_COINBASE_MATURITY as usize + PREVOUTS_CHAIN_HEIGHT);
}

#[test]
fn network_without_a_last_upgrade_stays_at_canopy() {
    let mut network = Network::mainnet();
    network.nu5 = None;
    assert_eq!(network.current(Height(MAX_HEIGHT)), NetworkUpgrade::Canopy);
    assert_eq!(network.activation_height(NetworkUpgrade::Nu5), None);
}

#[test]
fn commitment_kind_follows_the_height() {
    let network = Network::mainnet();
    assert_eq!(kind_at(&network, Height(0)), CommitmentKind::Reserved);
    assert_eq!(kind_at(&network, Height(902_999)), CommitmentKind::Reserved);
    assert_eq!(kind_at(&network, Height(903_000)), CommitmentKind::ActivationZeroes);
    assert_eq!(kind_at(&network, Height(903_001)), CommitmentKind::HistoryRoot);
    assert_eq!(kind_at(&network, Height(1_687_103)), CommitmentKind::HistoryRoot);
    assert_eq!(kind_at(&network, Height(1_687_104)), CommitmentKind::BlockCommitments);
    let mut open = network;
    open.nu5 = None;
    assert_eq!(kind_at(&open, Height(1_687_104)), CommitmentKind::HistoryRoot);
    assert_eq!(kind_at(&open, Height(MAX_HEIGHT)), CommitmentKind::HistoryRoot);
}

#[test]
fn commitment_is_encoded_by_its_kind() {
    let mut reserved = [0u8; 32];
    reserved[0] = 1;
    assert_eq!(reserved_commitment(), reserved);
    let root = [7u8; 32];
    let digest = [9u8; 32];
    assert_eq!(encode_commitment(CommitmentKind::Reserved, root, digest), reserved);
    assert_eq!(encode_commitment(CommitmentKind::ActivationZeroes, root, digest), [0u8; 32]);
    assert_eq!(encode_commitment(CommitmentKind::HistoryRoot, root, digest), root);
    assert_eq!(encode_commitment(CommitmentKind::BlockCommitments, root, digest), digest);
}

#[test]
fn commitment_bytes_are_read_by_the_active_upgrade() {
    let network = Network::mainnet();
    let bytes = [3u8; 32];
    assert_eq!(Commitment::from_bytes(bytes, &network, Height(5)), Ok(Commitment::PreSaplingReserved(bytes)));
    assert_eq!(
        Commitment::from_bytes(bytes, &network, Height(419_200)),
        Ok(Commitment::FinalSaplingRoot(bytes))
    );
    assert_eq!(
        Commitment::from_bytes(bytes, &network, Height(903_000)),
        Err(InvalidChainHistoryActivationReserved)
    );
    assert_eq!(
        Commitment::from_bytes([0u8; 32], &network, Height(903_000)),
        Ok(Commitment::ChainHistoryActivationReserved)
    );
    assert_eq!(
        Commitment::from_bytes(bytes, &network, Height(903_001)),
        Ok(Commitment::ChainHistoryRoot(bytes))
    );
    assert_eq!(
        Commitment::from_bytes(bytes, &network, Height(1_046_400)),
        Ok(Commitment::ChainHistoryRoot(bytes))
    );
    assert_eq!(
        Commitment::from_bytes(bytes, &network, Height(1_687_104)),
        Ok(Commitment::ChainHistoryBlockTxAuthCommitment(bytes))
    );
}

#[test]
fn generated_commitment_is_reserved_at_the_activation_height() {
    let network = Network::testnet();
    let bytes = [3u8; 32];
    assert_eq!(Commitment::generated(bytes, &network, Height(903_800)), Commitment::ChainHistoryActivationReserved);
    assert_eq!(Commitment::generated(bytes, &network, Height(903_801)), Commitment::ChainHistoryRoot(bytes));
    assert_eq!(Commitment::generated(bytes, &network, Height(1)), Commitment::PreSaplingReserved(bytes));
}

#[test]
fn value_balance_starts_at_zero() {
    let zero = ValueBalance::zero();
    assert_eq!(zero, ValueBalance { transparent: 0, sprout: 0, sapling: 0, orchard: 0 });
    assert!(zero.is_non_negative());
    assert!(!ValueBalance { orchard: -1, ..zero }.is_non_negative());
    assert!(!ValueBalance { transparent: -1, ..zero }.is_non_negative());
    assert!(ValueBalance { sprout: 1, sapling: 2, ..zero }.is_non_negative());
}

#[test]
fn override_wins_over_generated_values() {
    let fixed = LedgerStateOverride {
        height_override: Some(Height(12)),
        previous_block_hash_override: Some([4u8; 32]),
        network_upgrade_override: Some(NetworkUpgrade::Canopy),
        transaction_version_override: Some(5),
        transaction_has_valid_network_upgrade: false,
        always_has_coinbase: false,
    };
    let state = LedgerState::with_override(fixed, Height(99), Network::testnet(), true, false);
    assert_eq!(state.height, Height(12));
    assert_eq!(state.network, Network::testnet());
    assert_eq!(state.network_upgrade(), NetworkUpgrade::Canopy);
    assert_eq!(state.previous_block_hash_override(), Some([4u8; 32]));
    assert_eq!(state.transaction_version_override(), Some(5));
    assert!(state.transaction_has_valid_network_upgrade());
    assert!(!state.has_coinbase);

    let open = LedgerStateOverride {
        height_override: None,
        previous_block_hash_override: None,
        network_upgrade_override: None,
        transaction_version_override: None,
        transaction_has_valid_network_upgrade: false,
        always_has_coinbase: true,
    };
    let state = LedgerState::with_override(open, Height(903_000), Network::mainnet(), false, false);
    assert_eq!(state.height, Height(903_000));
    assert_eq!(state.network_upgrade(), NetworkUpgrade::Heartwood);
    assert_eq!(state.transaction_version_override(), None);
    assert!(!state.transaction_has_valid_network_upgrade());
    assert!(state.has_coinbase);
}

#[test]
fn generated_settings_pick_the_network() {
    let open = LedgerStateOverride {
        height_override: None,
        previous_block_hash_override: None,
        network_upgrade_override: None,
        transaction_version_override: None,
        transaction_has_valid_network_upgrade: false,
        always_has_coinbase: false,
    };
    let state = LedgerState::generated(open, 77, true, false, true);
    assert_eq!(state.height, Height(77));
    assert_eq!(state.network, Network::testnet());
    assert!(state.has_coinbase);
    let state = LedgerState::generated(open, 78, false, true, false);
    assert_eq!(state.network, Network::mainnet());
    assert!(state.transaction_has_valid_network_upgrade);
    assert!(!state.has_coinbase);
}

#[test]
fn default_settings_stand_at_the_latest_activation_height() {
    let fixed = LedgerStateOverride::default();
    assert_eq!(fixed.height_override, None);
    assert_eq!(fixed.previous_block_hash_override, None);
    assert_eq!(fixed.network_upgrade_override, None);
    assert_eq!(fixed.transaction_version_override, None);
    assert!(!fixed.transaction_has_valid_network_upgrade);
    assert!(fixed.always_has_coinbase);

    let state = LedgerState::default();
    assert_eq!(state.network, Network::mainnet());
    assert_eq!(state.height, Height(1_687_104));
    assert_eq!(state.network_upgrade(), NetworkUpgrade::Nu5);
    assert!(state.has_coinbase);
    assert_eq!(state.previous_block_hash_override(), None);
}

#[test]
fn generated_header_takes_its_previous_hash_from_the_settings() {
    let open = LedgerStateOverride {
        height_override: None,
        previous_block_hash_override: None,
        network_upgrade_override: None,
        transaction_version_override: None,
        transaction_has_valid_network_upgrade: false,
        always_has_coinbase: true,
    };
    let make = |state: &LedgerState| {
        Header::generated(state, 4, [1u8; 32], [2u8; 32], [3u8; 32], 10, 20, [4u8; 32], vec![5, 6])
    };
    let above = LedgerState::with_override(open, Height(3), Network::mainnet(), false, false);
    let header = make(&above);
    assert_eq!(header.previous_block_hash, [1u8; 32]);
    assert_eq!(header.version, 4);
    assert_eq!(header.merkle_root, [2u8; 32]);
    assert_eq!(header.commitment_bytes, [3u8; 32]);
    assert_eq!(header.time, 10);
    assert_eq!(header.difficulty_threshold, 20);
    assert_eq!(header.nonce, [4u8; 32]);
    assert_eq!(header.solution, vec![5, 6]);

    let genesis = LedgerState::with_override(open, Height(0), Network::mainnet(), false, false);
    assert_eq!(make(&genesis).previous_block_hash, [0u8; 32]);

    let fixed = LedgerStateOverride { previous_block_hash_override: Some([9u8; 32]), ..open };
    let behind = LedgerState::with_override(fixed, Height(0), Network::mainnet(), false, false);
    assert_eq!(make(&behind).previous_block_hash, [9u8; 32]);
}

#[test]
fn genesis_strategy_starts_at_height_zero() {
    for state in samples(LedgerState::genesis_strategy(Some(NetworkUpgrade::Nu5), Some(5), true)) {
        assert_eq!(state.height, Height(0));
        assert!(state.has_coinbase);
        assert_eq!(state.network_upgrade(), NetworkUpgrade::Nu5);
        assert_eq!(state.previous_block_hash_override(), Some([0u8; 32]));
        assert_eq!(state.transaction_version_override(), Some(5));
        assert!(state.transaction_has_valid_network_upgrade());
    }
}

#[test]
fn height_strategy_starts_at_the_given_height() {
    for state in samples(LedgerState::height_strategy(Height(4321), None, None, false)) {
        assert_eq!(state.height, Height(4321));
        assert!(state.has_coinbase);
        assert_eq!(state.network_upgrade(), state.network.current(Height(4321)));
        assert_eq!(state.previous_block_hash_override(), None);
    }
}

#[test]
fn coinbase_strategy_always_has_a_coinbase() {
    let states = samples(LedgerState::coinbase_strategy(None, Some(4), false));
    for state in &states {
        assert!(state.has_coinbase);
        assert!(state.height.0 <= MAX_HEIGHT);
        assert_eq!(state.transaction_version_override(), Some(4));
    }
    // the height is generated: the samples do not all stand at one height
    assert!(states.iter().any(|state| state.height != states[0].height));
}

#[test]
fn network_upgrade_strategy_fixes_the_upgrade() {
    for state in samples(LedgerState::network_upgrade_strategy(NetworkUpgrade::Sapling, None, true)) {
        assert_eq!(state.network_upgrade(), NetworkUpgrade::Sapling);
        assert!(state.transaction_has_valid_network_upgrade());
        assert!(state.height.0 <= MAX_HEIGHT);
    }
}

#[test]
fn no_override_strategy_fixes_nothing() {
    let states = samples(LedgerState::no_override_strategy());
    for state in &states {
        assert_eq!(state.network_upgrade(), state.network.current(state.height));
        assert_eq!(state.previous_block_hash_override(), None);
        assert_eq!(state.transaction_version_override(), None);
        assert!(state.height.0 <= MAX_HEIGHT);
    }
    assert!(states.iter().any(|state| state.has_coinbase));
    assert!(states.iter().any(|state| !state.has_coinbase));
    assert!(states.iter().any(|state| state.network == Network::mainnet()));
    assert!(states.iter().any(|state| state.network == Network::testnet()));
}

#[test]
fn default_strategy_always_has_a_coinbase() {
    for state in samples(LedgerState::default_strategy()) {
        assert!(state.has_coinbase);
        assert_eq!(state.network_upgrade(), state.network.current(state.height));
    }
}
