//! The settings under which candidate blocks are generated and repaired.

use vstd::prelude::*;
use proptest::strategy::{BoxedStrategy, Strategy};
use crate::parameters::{
    Digest, Height, MAX_HEIGHT, Network, NetworkUpgrade, lemma_upgrade_at, zero_digest, zeroed,
};

verus! {

/// The settings for one generated block, or for the first block of a
/// generated chain.
#[derive(Clone, Copy, Debug)]
pub struct LedgerState {
    /// The height of the block, or of the first block of the chain.
    pub height: Height,
    /// The network that the blocks are generated for.
    pub network: Network,
    /// The upgrade whose features every block has, whatever its height.
    pub network_upgrade_override: Option<NetworkUpgrade>,
    /// The previous-block hash of the first block.
    pub previous_block_hash_override: Option<Digest>,
    /// The version of every transaction.
    pub transaction_version_override: Option<u32>,
    /// Whether every transaction names a network upgrade that is valid for it.
    pub transaction_has_valid_network_upgrade: bool,
    /// Whether the first transaction of a block is a coinbase transaction.
    pub has_coinbase: bool,
}

/// What a caller fixes of a [`LedgerState`] before the rest is generated.
#[derive(Clone, Copy, Debug)]
pub struct LedgerStateOverride {
    /// The height of every single block and of the first block of every chain.
    pub height_override: Option<Height>,
    /// The previous-block hash of every single block and of the first block
    /// of every chain.
    pub previous_block_hash_override: Option<Digest>,
    /// The upgrade whose features every block has, whatever its height.
    pub network_upgrade_override: Option<NetworkUpgrade>,
    /// The version of every transaction.
    pub transaction_version_override: Option<u32>,
    /// Whether every transaction names a network upgrade that is valid for it.
    pub transaction_has_valid_network_upgrade: bool,
    /// Whether every block has a coinbase transaction.
    pub always_has_coinbase: bool,
}

/// A generator of values, as `proptest` boxes it.
#[verifier::external_type_specification]
#[verifier::external_body]
#[verifier::reject_recursive_types(T)]
pub struct ExBoxedStrategy<T>(BoxedStrategy<T>);

/// The settings that a generator can produce: every value that
/// `ValueTree::current` can return for a tree that `Strategy::new_tree` makes
/// of it, before and after shrinking.
pub uninterp spec fn generated_by(strategy: BoxedStrategy<LedgerState>) -> Set<LedgerState>;

/// The settings that come of `ledger_override` and four generated values: a
/// height, whether the network is the test network, and two flags.
pub open spec fn assembled(
    ledger_override: LedgerStateOverride,
    height: u32,
    testnet: bool,
    transaction_has_valid_network_upgrade: bool,
    has_coinbase: bool,
) -> LedgerState {
    LedgerState {
        height: match ledger_override.height_override {
            Some(fixed) => fixed,
            None => Height(height),
        },
        network: if testnet {
            Network::test_network()
        } else {
            Network::main_network()
        },
        network_upgrade_override: ledger_override.network_upgrade_override,
        previous_block_hash_override: ledger_override.previous_block_hash_override,
        transaction_version_override: ledger_override.transaction_version_override,
        transaction_has_valid_network_upgrade: ledger_override.transaction_has_valid_network_upgrade
            || transaction_has_valid_network_upgrade,
        has_coinbase: ledger_override.always_has_coinbase || has_coinbase,
    }
}

/// Whether `state` comes of `ledger_override` and some generated values.
pub open spec fn may_come_of(ledger_override: LedgerStateOverride, state: LedgerState) -> bool {
    exists|height: u32, testnet: bool, valid: bool, coinbase: bool|
        height <= MAX_HEIGHT && state == #[trigger] assembled(
            ledger_override,
            height,
            testnet,
            valid,
            coinbase,
        )
}

/// Builds the generator of settings under `ledger_override`.
///
/// Calls `prop_map` and `boxed` of `proptest::strategy::Strategy` on a tuple
/// of the range of heights up to [`MAX_HEIGHT`] and three
/// `proptest::bool::ANY`. The contract claims what `prop_map` documents:
/// every value that the generator produces is [`LedgerState::generated`]
/// applied to a value of the tuple, whose height lies in the range. It
/// claims nothing of which of these values are produced, nor how often.
#[verifier::external_body]
fn arbitrary_with(ledger_override: LedgerStateOverride) -> (strategy: BoxedStrategy<LedgerState>)
    ensures
        forall|state: LedgerState| #[trigger]
            generated_by(strategy).contains(state) ==> may_come_of(ledger_override, state),
{
    (0u32..=MAX_HEIGHT, proptest::bool::ANY, proptest::bool::ANY, proptest::bool::ANY)
        .prop_map(
            move |(height, testnet, valid, coinbase)|
                LedgerState::generated(ledger_override, height, testnet, valid, coinbase),
        )
        .boxed()
}

impl LedgerState {
    /// The settings that come of `ledger_override` and four generated
    /// values: a height, whether the network is the test network, and two
    /// flags.
    pub fn generated(
        ledger_override: LedgerStateOverride,
        height: u32,
        testnet: bool,
        transaction_has_valid_network_upgrade: bool,
        has_coinbase: bool,
    ) -> (state: LedgerState)
        ensures
            state == assembled(
                ledger_override,
                height,
                testnet,
                transaction_has_valid_network_upgrade,
                has_coinbase,
            ),
    {
        let network = if testnet {
            Network::testnet()
        } else {
            Network::mainnet()
        };
        LedgerState::with_override(
            ledger_override,
            Height(height),
            network,
            transaction_has_valid_network_upgrade,
            has_coinbase,
        )
    }

    /// A generator of settings under the usual override.
    pub fn default_strategy() -> (strategy: BoxedStrategy<LedgerState>)
        ensures
            forall|state: LedgerState| #[trigger]
                generated_by(strategy).contains(state) ==> may_come_of(LedgerStateOverride::usual(), state),
    {
        arbitrary_with(LedgerStateOverride::default())
    }

    /// A generator of settings of which nothing is fixed.
    pub fn no_override_strategy() -> (strategy: BoxedStrategy<LedgerState>)
        ensures
            forall|state: LedgerState| #[trigger]
                generated_by(strategy).contains(state) ==> {
                    &&& state.height.0 <= MAX_HEIGHT
                    &&& state.network_upgrade_override is None
                    &&& state.previous_block_hash_override is None
                    &&& state.transaction_version_override is None
                },
    {
        arbitrary_with(
            LedgerStateOverride {
                height_override: None,
                previous_block_hash_override: None,
                network_upgrade_override: None,
                transaction_version_override: None,
                transaction_has_valid_network_upgrade: false,
                always_has_coinbase: false,
            },
        )
    }

    /// A generator of settings whose blocks have the features of
    /// `network_upgrade_override`, whatever their height and network.
    pub fn network_upgrade_strategy(
        network_upgrade_override: NetworkUpgrade,
        transaction_version_override: Option<u32>,
        transaction_has_valid_network_upgrade: bool,
    ) -> (strategy: BoxedStrategy<LedgerState>)
        ensures
            forall|state: LedgerState| #[trigger]
                generated_by(strategy).contains(state) ==> {
                    &&& state.height.0 <= MAX_HEIGHT
                    &&& state.network_upgrade_override == Some(network_upgrade_override)
                    &&& state.previous_block_hash_override is None
                    &&& state.transaction_version_override == transaction_version_override
                    &&& transaction_has_valid_network_upgrade
                        ==> state.transaction_has_valid_network_upgrade
                },
    {
        arbitrary_with(
            LedgerStateOverride {
                height_override: None,
                previous_block_hash_override: None,
                network_upgrade_override: Some(network_upgrade_override),
                transaction_version_override,
                transaction_has_valid_network_upgrade,
                always_has_coinbase: false,
            },
        )
    }

    /// A generator of settings whose blocks always have a coinbase
    /// transaction.
    pub fn coinbase_strategy(
        network_upgrade_override: Option<NetworkUpgrade>,
        transaction_version_override: Option<u32>,
        transaction_has_valid_network_upgrade: bool,
    ) -> (strategy: BoxedStrategy<LedgerState>)
        ensures
            forall|state: LedgerState| #[trigger]
                generated_by(strategy).contains(state) ==> {
                    &&& state.height.0 <= MAX_HEIGHT
                    &&& state.has_coinbase
                    &&& state.network_upgrade_override == network_upgrade_override
                    &&& state.previous_block_hash_override is None
                    &&& state.transaction_version_override == transaction_version_override
                    &&& transaction_has_valid_network_upgrade
                        ==> state.transaction_has_valid_network_upgrade
                },
    {
        arbitrary_with(
            LedgerStateOverride {
                height_override: None,
                previous_block_hash_override: None,
                network_upgrade_override,
                transaction_version_override,
                transaction_has_valid_network_upgrade,
                always_has_coinbase: true,
            },
        )
    }

    /// A generator of settings for a chain that starts with a genesis block:
    /// at height zero, behind the all-zero hash, with a coinbase transaction
    /// in every block.
    pub fn genesis_strategy(
        network_upgrade_override: Option<NetworkUpgrade>,
        transaction_version_override: Option<u32>,
        transaction_has_valid_network_upgrade: bool,
    ) -> (strategy: BoxedStrategy<LedgerState>)
        ensures
            forall|state: LedgerState| #[trigger]
                generated_by(strategy).contains(state) ==> {
                    &&& state.height == Height(0)
                    &&& state.has_coinbase
                    &&& state.network_upgrade_override == network_upgrade_override
                    &&& state.previous_block_hash_override == Some(zeroed())
                    &&& state.transaction_version_override == transaction_version_override
                    &&& transaction_has_valid_network_upgrade
                        ==> state.transaction_has_valid_network_upgrade
                },
    {
        arbitrary_with(
            LedgerStateOverride {
                height_override: Some(Height(0)),
                previous_block_hash_override: Some(zero_digest()),
                network_upgrade_override,
                transaction_version_override,
                transaction_has_valid_network_upgrade,
                always_has_coinbase: true,
            },
        )
    }

    /// A generator of settings for a chain that starts at `height`, with a
    /// coinbase transaction in every block.
    pub fn height_strategy(
        height: Height,
        network_upgrade_override: Option<NetworkUpgrade>,
        transaction_version_override: Option<u32>,
        transaction_has_valid_network_upgrade: bool,
    ) -> (strategy: BoxedStrategy<LedgerState>)
        ensures
            forall|state: LedgerState| #[trigger]
                generated_by(strategy).contains(state) ==> {
                    &&& state.height == height
                    &&& state.has_coinbase
                    &&& state.network_upgrade_override == network_upgrade_override
                    &&& state.previous_block_hash_override is None
                    &&& state.transaction_version_override == transaction_version_override
                    &&& transaction_has_valid_network_upgrade
                        ==> state.transaction_has_valid_network_upgrade
                },
    {
        arbitrary_with(
            LedgerStateOverride {
                height_override: Some(height),
                previous_block_hash_override: None,
                network_upgrade_override,
                transaction_version_override,
                transaction_has_valid_network_upgrade,
                always_has_coinbase: true,
            },
        )
    }

    /// The settings that `ledger_override` and the generated values give: a
    /// value that the override fixes wins over the generated one, and a flag
    /// is set if the override or the generated value sets it.
    pub fn with_override(
        ledger_override: LedgerStateOverride,
        height: Height,
        network: Network,
        transaction_has_valid_network_upgrade: bool,
        has_coinbase: bool,
    ) -> (state: LedgerState)
        ensures
            state.height == match ledger_override.height_override {
                Some(fixed) => fixed,
                None => height,
            },
            state.network == network,
            state.network_upgrade_override == ledger_override.network_upgrade_override,
            state.previous_block_hash_override == ledger_override.previous_block_hash_override,
            state.transaction_version_override == ledger_override.transaction_version_override,
            state.transaction_has_valid_network_upgrade == (ledger_override.transaction_has_valid_network_upgrade
                || transaction_has_valid_network_upgrade),
            state.has_coinbase == (ledger_override.always_has_coinbase || has_coinbase),
    {
        LedgerState {
            height: match ledger_override.height_override {
                Some(fixed) => fixed,
                None => height,
            },
            network,
            network_upgrade_override: ledger_override.network_upgrade_override,
            previous_block_hash_override: ledger_override.previous_block_hash_override,
            transaction_version_override: ledger_override.transaction_version_override,
            transaction_has_valid_network_upgrade: ledger_override.transaction_has_valid_network_upgrade
                || transaction_has_valid_network_upgrade,
            has_coinbase: ledger_override.always_has_coinbase || has_coinbase,
        }
    }

    /// The network upgrade of these settings: the override if there is one,
    /// else the upgrade that is active on the network at the height.
    pub fn network_upgrade(&self) -> (upgrade: NetworkUpgrade)
        ensures
            upgrade == match self.network_upgrade_override {
                Some(fixed) => fixed,
                None => self.network.upgrade_at(self.height),
            },
    {
        match self.network_upgrade_override {
            Some(fixed) => fixed,
            None => self.network.current(self.height),
        }
    }

    /// The previous-block hash that overrides the generated one, if any.
    pub fn previous_block_hash_override(&self) -> (hash: Option<Digest>)
        ensures
            hash == self.previous_block_hash_override,
    {
        self.previous_block_hash_override
    }

    /// The transaction version that overrides the generated one, if any.
    pub fn transaction_version_override(&self) -> (version: Option<u32>)
        ensures
            version == self.transaction_version_override,
    {
        self.transaction_version_override
    }

    /// Whether every transaction names a network upgrade that is valid for it.
    pub fn transaction_has_valid_network_upgrade(&self) -> (valid: bool)
        ensures
            valid == self.transaction_has_valid_network_upgrade,
    {
        self.transaction_has_valid_network_upgrade
    }
}

impl LedgerStateOverride {
    /// The override that fixes nothing but this: every block has a coinbase
    /// transaction, and has the features of NU5 if the default network gives
    /// NU5 no height.
    pub open spec fn usual() -> LedgerStateOverride {
        LedgerStateOverride {
            height_override: None,
            previous_block_hash_override: None,
            network_upgrade_override: if Network::main_network().nu5 is Some {
                None
            } else {
                Some(NetworkUpgrade::Nu5)
            },
            transaction_version_override: None,
            transaction_has_valid_network_upgrade: false,
            always_has_coinbase: true,
        }
    }
}

impl Default for LedgerStateOverride {
    /// The override that is meant where none is given.
    fn default() -> (ledger_override: LedgerStateOverride)
        ensures
            ledger_override == LedgerStateOverride::usual(),
    {
        let default_network = Network::default();
        let nu5_override = if default_network.activation_height(NetworkUpgrade::Nu5).is_some() {
            None
        } else {
            Some(NetworkUpgrade::Nu5)
        };
        LedgerStateOverride {
            height_override: None,
            previous_block_hash_override: None,
            network_upgrade_override: nu5_override,
            transaction_version_override: None,
            transaction_has_valid_network_upgrade: false,
            always_has_coinbase: true,
        }
    }
}

impl Default for LedgerState {
    /// The settings of a block on the default network, at the height at
    /// which that network's latest upgrade becomes active.
    fn default() -> (state: LedgerState)
        ensures
            state.network == Network::main_network(),
            Some(state.height) == state.network.activation(state.network.upgrade_at(Height(MAX_HEIGHT))),
            state.network_upgrade_override == LedgerStateOverride::usual().network_upgrade_override,
            state.previous_block_hash_override is None,
            state.transaction_version_override is None,
            !state.transaction_has_valid_network_upgrade,
            state.has_coinbase,
    {
        let default_network = Network::default();
        let default_override = LedgerStateOverride::default();
        let most_recent_nu = default_network.current(Height(MAX_HEIGHT));
        proof {
            lemma_upgrade_at(default_network, Height(MAX_HEIGHT), most_recent_nu);
        }
        let most_recent_activation_height = default_network.activation_height(most_recent_nu).unwrap();
        LedgerState {
            height: most_recent_activation_height,
            network: default_network,
            network_upgrade_override: default_override.network_upgrade_override,
            previous_block_hash_override: default_override.previous_block_hash_override,
            transaction_version_override: default_override.transaction_version_override,
            transaction_has_valid_network_upgrade: default_override.transaction_has_valid_network_upgrade,
            has_coinbase: default_override.always_has_coinbase,
        }
    }
}

} // verus!
