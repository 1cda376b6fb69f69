//! Heights, digests, networks and network upgrades.

use vstd::prelude::*;

verus! {

/// A 32-byte digest: a block hash, a transaction id, a tree root or a commitment.
pub type Digest = [u8; 32];

/// The height of a block in its chain.
#[derive(Clone, Copy, Debug, PartialEq, Eq, Structural, Hash)]
pub struct Height(pub u32);

/// The largest height a block can have.
pub const MAX_HEIGHT: u32 = 499_999_999;

/// The number of blocks that must follow a coinbase output before it can be spent.
pub const MIN_TRANSPARENT_COINBASE_MATURITY: u32 = 100;

/// Compares two digests byte by byte.
pub fn digest_eq(a: &Digest, b: &Digest) -> (same: bool)
    ensures
        same == (*a == *b),
{
    let mut i: usize = 0;
    while i < 32
        invariant
            i <= 32,
            forall|j: int| 0 <= j < i ==> a@[j] == b@[j],
        decreases 32 - i,
    {
        if a[i] != b[i] {
            return false;
        }
        i += 1;
    }
    assert(*a =~= *b);
    true
}

/// The digest whose bytes are all zero.
pub open spec fn zeroed() -> Digest {
    vstd::array::spec_array_fill_for_copy_type::<u8, 32>(0u8)
}

/// The all-zero digest. A genesis block carries it as its previous-block hash.
pub fn zero_digest() -> (d: Digest)
    ensures
        d == zeroed(),
        forall|i: int| 0 <= i < 32 ==> d@[i] == 0,
{
    let d: Digest = [0u8; 32];
    assert(d =~= zeroed());
    d
}

/// A protocol epoch. Each upgrade is active from its activation height up to
/// the activation height of the next.
#[derive(Clone, Copy, Debug, PartialEq, Eq, Structural, Hash)]
pub enum NetworkUpgrade {
    Genesis,
    BeforeOverwinter,
    Overwinter,
    Sapling,
    Blossom,
    Heartwood,
    Canopy,
    Nu5,
}

/// Which network a chain belongs to.
#[derive(Clone, Copy, Debug, PartialEq, Eq, Structural, Hash)]
pub enum NetworkKind {
    Mainnet,
    Testnet,
}

/// A network: its name, and the height at which each of its upgrades becomes
/// active. The genesis rules are active at height zero and the rules before
/// Overwinter from height one on. The last upgrade may not have a height yet.
#[derive(Clone, Copy, Debug, PartialEq, Eq)]
pub struct Network {
    pub kind: NetworkKind,
    pub overwinter: Height,
    pub sapling: Height,
    pub blossom: Height,
    pub heartwood: Height,
    pub canopy: Height,
    pub nu5: Option<Height>,
}

impl Network {
    /// The upgrades become active one after another.
    pub open spec fn wf(self) -> bool {
        &&& 1 < self.overwinter.0 < self.sapling.0 < self.blossom.0 < self.heartwood.0 < self.canopy.0
        &&& self.nu5 matches Some(nu5) ==> self.canopy.0 < nu5.0
    }

    /// The height at which `upgrade` becomes active, if it has one.
    pub open spec fn activation(self, upgrade: NetworkUpgrade) -> Option<Height> {
        match upgrade {
            NetworkUpgrade::Genesis => Some(Height(0)),
            NetworkUpgrade::BeforeOverwinter => Some(Height(1)),
            NetworkUpgrade::Overwinter => Some(self.overwinter),
            NetworkUpgrade::Sapling => Some(self.sapling),
            NetworkUpgrade::Blossom => Some(self.blossom),
            NetworkUpgrade::Heartwood => Some(self.heartwood),
            NetworkUpgrade::Canopy => Some(self.canopy),
            NetworkUpgrade::Nu5 => self.nu5,
        }
    }

    /// The upgrade that is active at `height`.
    pub open spec fn upgrade_at(self, height: Height) -> NetworkUpgrade {
        if self.nu5 is Some && height.0 >= self.nu5->Some_0.0 {
            NetworkUpgrade::Nu5
        } else if height.0 >= self.canopy.0 {
            NetworkUpgrade::Canopy
        } else if height.0 >= self.heartwood.0 {
            NetworkUpgrade::Heartwood
        } else if height.0 >= self.blossom.0 {
            NetworkUpgrade::Blossom
        } else if height.0 >= self.sapling.0 {
            NetworkUpgrade::Sapling
        } else if height.0 >= self.overwinter.0 {
            NetworkUpgrade::Overwinter
        } else if height.0 >= 1 {
            NetworkUpgrade::BeforeOverwinter
        } else {
            NetworkUpgrade::Genesis
        }
    }

    /// The main network.
    pub open spec fn main_network() -> Network {
        Network {
            kind: NetworkKind::Mainnet,
            overwinter: Height(347_500),
            sapling: Height(419_200),
            blossom: Height(653_600),
            heartwood: Height(903_000),
            canopy: Height(1_046_400),
            nu5: Some(Height(1_687_104)),
        }
    }

    /// The test network.
    pub open spec fn test_network() -> Network {
        Network {
            kind: NetworkKind::Testnet,
            overwinter: Height(207_500),
            sapling: Height(280_000),
            blossom: Height(584_000),
            heartwood: Height(903_800),
            canopy: Height(1_028_500),
            nu5: Some(Height(1_842_420)),
        }
    }

    /// The main network.
    pub fn mainnet() -> (network: Network)
        ensures
            network.wf(),
            network == Network::main_network(),
    {
        Network {
            kind: NetworkKind::Mainnet,
            overwinter: Height(347_500),
            sapling: Height(419_200),
            blossom: Height(653_600),
            heartwood: Height(903_000),
            canopy: Height(1_046_400),
            nu5: Some(Height(1_687_104)),
        }
    }

    /// The test network.
    pub fn testnet() -> (network: Network)
        ensures
            network.wf(),
            network == Network::test_network(),
    {
        Network {
            kind: NetworkKind::Testnet,
            overwinter: Height(207_500),
            sapling: Height(280_000),
            blossom: Height(584_000),
            heartwood: Height(903_800),
            canopy: Height(1_028_500),
            nu5: Some(Height(1_842_420)),
        }
    }

    /// The height at which `upgrade` becomes active, if it has one.
    pub fn activation_height(&self, upgrade: NetworkUpgrade) -> (height: Option<Height>)
        ensures
            height == self.activation(upgrade),
    {
        match upgrade {
            NetworkUpgrade::Genesis => Some(Height(0)),
            NetworkUpgrade::BeforeOverwinter => Some(Height(1)),
            NetworkUpgrade::Overwinter => Some(self.overwinter),
            NetworkUpgrade::Sapling => Some(self.sapling),
            NetworkUpgrade::Blossom => Some(self.blossom),
            NetworkUpgrade::Heartwood => Some(self.heartwood),
            NetworkUpgrade::Canopy => Some(self.canopy),
            NetworkUpgrade::Nu5 => self.nu5,
        }
    }

    /// The upgrade that is active at `height`.
    pub fn current(&self, height: Height) -> (upgrade: NetworkUpgrade)
        ensures
            upgrade == self.upgrade_at(height),
    {
        match self.nu5 {
            Some(nu5) if height.0 >= nu5.0 => {
                return NetworkUpgrade::Nu5;
            },
            _ => {},
        }
        if height.0 >= self.canopy.0 {
            NetworkUpgrade::Canopy
        } else if height.0 >= self.heartwood.0 {
            NetworkUpgrade::Heartwood
        } else if height.0 >= self.blossom.0 {
            NetworkUpgrade::Blossom
        } else if height.0 >= self.sapling.0 {
            NetworkUpgrade::Sapling
        } else if height.0 >= self.overwinter.0 {
            NetworkUpgrade::Overwinter
        } else if height.0 >= 1 {
            NetworkUpgrade::BeforeOverwinter
        } else {
            NetworkUpgrade::Genesis
        }
    }
}

/// The upgrade that is active at a height became active at or below that
/// height, and every upgrade that becomes active later than it does so above
/// that height.
pub proof fn lemma_upgrade_at(network: Network, height: Height, other: NetworkUpgrade)
    requires
        network.wf(),
    ensures
        network.activation(network.upgrade_at(height)) is Some,
        network.activation(network.upgrade_at(height))->Some_0.0 <= height.0,
        network.activation(other) matches Some(activation) ==> (activation.0 <= height.0
            ==> activation.0 <= network.activation(network.upgrade_at(height))->Some_0.0),
{
}

impl Default for Network {
    /// The network that is meant where none is named: the main network.
    fn default() -> (network: Network)
        ensures
            network == Network::main_network(),
    {
        Network::mainnet()
    }
}

} // verus!
