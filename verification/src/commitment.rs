//! The commitment that a block header carries, which depends on the network
//! upgrade that is active at the block's height.

use vstd::prelude::*;
use crate::parameters::{Digest, Height, Network, NetworkUpgrade, digest_eq, zero_digest, zeroed};

verus! {

/// What the commitment of a header stands for.
#[derive(Clone, Copy, Debug, PartialEq, Eq, Structural)]
pub enum CommitmentKind {
    /// Below the Heartwood activation height: a reserved value that is only
    /// well-formed.
    Reserved,
    /// At the Heartwood activation height: all zeroes.
    ActivationZeroes,
    /// Above the Heartwood activation height, and below that of NU5 if it has
    /// one: the root of the history tree before the block.
    HistoryRoot,
    /// From the NU5 activation height on: the digest that binds the root of
    /// the history tree before the block to the block's authorizing data.
    BlockCommitments,
}

/// What the commitment of a header at `height` stands for on `network`.
pub open spec fn commitment_kind(network: Network, height: Height) -> CommitmentKind {
    if height.0 < network.heartwood.0 {
        CommitmentKind::Reserved
    } else if height.0 == network.heartwood.0 {
        CommitmentKind::ActivationZeroes
    } else if network.nu5 is Some && height.0 >= network.nu5->Some_0.0 {
        CommitmentKind::BlockCommitments
    } else {
        CommitmentKind::HistoryRoot
    }
}

/// The reserved value: its lowest byte is one, the others are zero.
pub open spec fn reserved() -> Digest {
    vstd::array::spec_array_update(zeroed(), 0, 1u8)
}

/// The commitment of a header of the kind `kind`, where the history tree
/// before the block has the root `history_root`, and `block_commitments`
/// binds that root to the block's authorizing data.
pub open spec fn encoded(kind: CommitmentKind, history_root: Digest, block_commitments: Digest) -> Digest {
    match kind {
        CommitmentKind::Reserved => reserved(),
        CommitmentKind::ActivationZeroes => zeroed(),
        CommitmentKind::HistoryRoot => history_root,
        CommitmentKind::BlockCommitments => block_commitments,
    }
}

/// What the commitment of a header at `height` stands for on `network`.
pub fn kind_at(network: &Network, height: Height) -> (kind: CommitmentKind)
    ensures
        kind == commitment_kind(*network, height),
{
    if height.0 < network.heartwood.0 {
        CommitmentKind::Reserved
    } else if height.0 == network.heartwood.0 {
        CommitmentKind::ActivationZeroes
    } else {
        match network.nu5 {
            Some(nu5) if height.0 >= nu5.0 => CommitmentKind::BlockCommitments,
            _ => CommitmentKind::HistoryRoot,
        }
    }
}

/// The reserved value that a header below the Heartwood activation height
/// carries.
pub fn reserved_commitment() -> (bytes: Digest)
    ensures
        bytes == reserved(),
        bytes@[0] == 1,
        forall|i: int| 1 <= i < 32 ==> bytes@[i] == 0,
{
    let mut bytes: Digest = zero_digest();
    bytes[0] = 1;
    assert(bytes =~= reserved());
    bytes
}

/// Encodes the commitment of a header of the kind `kind`.
pub fn encode_commitment(kind: CommitmentKind, history_root: Digest, block_commitments: Digest) -> (bytes:
    Digest)
    ensures
        bytes == encoded(kind, history_root, block_commitments),
{
    match kind {
        CommitmentKind::Reserved => reserved_commitment(),
        CommitmentKind::ActivationZeroes => zero_digest(),
        CommitmentKind::HistoryRoot => history_root,
        CommitmentKind::BlockCommitments => block_commitments,
    }
}

/// The commitment of a header, read by the network upgrade that is active
/// at the block's height.
#[derive(Clone, Copy, Debug, PartialEq, Eq)]
pub enum Commitment {
    /// Before Sapling the field is reserved.
    PreSaplingReserved(Digest),
    /// From Sapling up to Heartwood: the root of the Sapling note commitment
    /// tree.
    FinalSaplingRoot(Digest),
    /// At the Heartwood activation height: all zeroes.
    ChainHistoryActivationReserved,
    /// Above the Heartwood activation height, through Canopy: the root of
    /// the history tree.
    ChainHistoryRoot(Digest),
    /// From NU5 on: the digest that binds the history root to the block's
    /// authorizing data.
    ChainHistoryBlockTxAuthCommitment(Digest),
}

/// The bytes of a header at the Heartwood activation height are not all zero.
#[derive(Clone, Copy, Debug, PartialEq, Eq, Structural)]
pub struct InvalidChainHistoryActivationReserved;

impl Commitment {
    /// What `bytes` stand for in a header at `height` on `network`, or
    /// nothing if they cannot stand in such a header.
    pub open spec fn read(bytes: Digest, network: Network, height: Height) -> Option<Commitment> {
        match network.upgrade_at(height) {
            NetworkUpgrade::Genesis | NetworkUpgrade::BeforeOverwinter | NetworkUpgrade::Overwinter => Some(
                Commitment::PreSaplingReserved(bytes),
            ),
            NetworkUpgrade::Sapling | NetworkUpgrade::Blossom => Some(Commitment::FinalSaplingRoot(bytes)),
            NetworkUpgrade::Heartwood | NetworkUpgrade::Canopy => if height == network.heartwood {
                if bytes == zeroed() {
                    Some(Commitment::ChainHistoryActivationReserved)
                } else {
                    None
                }
            } else {
                Some(Commitment::ChainHistoryRoot(bytes))
            },
            NetworkUpgrade::Nu5 => Some(Commitment::ChainHistoryBlockTxAuthCommitment(bytes)),
        }
    }

    /// Reads `bytes` as the commitment of a header at `height` on `network`.
    /// Only a header at the Heartwood activation height can be refused: its
    /// bytes must all be zero.
    pub fn from_bytes(bytes: Digest, network: &Network, height: Height) -> (commitment: Result<
        Commitment,
        InvalidChainHistoryActivationReserved,
    >)
        ensures
            match Commitment::read(bytes, *network, height) {
                Some(read) => commitment == Ok::<Commitment, InvalidChainHistoryActivationReserved>(read),
                None => commitment is Err,
            },
    {
        match network.current(height) {
            NetworkUpgrade::Genesis | NetworkUpgrade::BeforeOverwinter | NetworkUpgrade::Overwinter => Ok(
                Commitment::PreSaplingReserved(bytes),
            ),
            NetworkUpgrade::Sapling | NetworkUpgrade::Blossom => Ok(Commitment::FinalSaplingRoot(bytes)),
            NetworkUpgrade::Heartwood | NetworkUpgrade::Canopy => {
                if height.0 == network.heartwood.0 {
                    let zero = zero_digest();
                    if digest_eq(&bytes, &zero) {
                        Ok(Commitment::ChainHistoryActivationReserved)
                    } else {
                        Err(InvalidChainHistoryActivationReserved)
                    }
                } else {
                    Ok(Commitment::ChainHistoryRoot(bytes))
                }
            },
            NetworkUpgrade::Nu5 => Ok(Commitment::ChainHistoryBlockTxAuthCommitment(bytes)),
        }
    }

    /// The commitment that generated `bytes` make in a header at `height` on
    /// `network`: the reserved one at the Heartwood activation height,
    /// whatever the bytes are, and what the bytes stand for elsewhere.
    pub fn generated(bytes: Digest, network: &Network, height: Height) -> (commitment: Commitment)
        ensures
            commitment == if height == network.heartwood {
                Commitment::ChainHistoryActivationReserved
            } else {
                Commitment::read(bytes, *network, height)->Some_0
            },
            height != network.heartwood ==> Commitment::read(bytes, *network, height) is Some,
    {
        if height.0 == network.heartwood.0 {
            Commitment::ChainHistoryActivationReserved
        } else {
            match Commitment::from_bytes(bytes, network, height) {
                Ok(commitment) => commitment,
                Err(_) => Commitment::ChainHistoryActivationReserved,
            }
        }
    }
}

/// At the Heartwood activation height the commitment is all zeroes, whatever
/// the trees hold.
pub proof fn lemma_activation_commitment_is_zero(
    network: Network,
    height: Height,
    history_root: Digest,
    block_commitments: Digest,
)
    requires
        height == network.heartwood,
    ensures
        encoded(commitment_kind(network, height), history_root, block_commitments) == zeroed(),
        forall|i: int|
            0 <= i < 32 ==> encoded(commitment_kind(network, height), history_root, block_commitments)@[i]
                == 0,
{
}

/// Above the Heartwood activation height, and below that of NU5 where it has
/// one, the commitment is the root of the history tree before the block.
pub proof fn lemma_history_commitment_is_root(
    network: Network,
    height: Height,
    history_root: Digest,
    block_commitments: Digest,
)
    requires
        height.0 > network.heartwood.0,
        network.nu5 matches Some(nu5) ==> height.0 < nu5.0,
    ensures
        encoded(commitment_kind(network, height), history_root, block_commitments) == history_root,
{
}

} // verus!
