//! Network identities: the magic numbers of the well-known networks.

use vstd::prelude::*;

verus! {

pub const MAINNET: u64 = 764824073;

pub const TESTNET: u64 = 1097911063;

pub const PREVIEW: u64 = 2;

pub const PRE_PRODUCTION: u64 = 1;

/// `pallas::network::miniprotocols::MAINNET_MAGIC`: the constant is 764824073.
#[verifier::external_body]
fn pallas_mainnet_magic() -> (m: u64)
    ensures
        m == 764824073u64,
{
    pallas::network::miniprotocols::MAINNET_MAGIC
}

/// `pallas::network::miniprotocols::TESTNET_MAGIC`: the constant is 1097911063.
#[verifier::external_body]
fn pallas_testnet_magic() -> (m: u64)
    ensures
        m == 1097911063u64,
{
    pallas::network::miniprotocols::TESTNET_MAGIC
}

/// `pallas::network::miniprotocols::PREVIEW_MAGIC`: the constant is 2.
#[verifier::external_body]
fn pallas_preview_magic() -> (m: u64)
    ensures
        m == 2u64,
{
    pallas::network::miniprotocols::PREVIEW_MAGIC
}

/// `pallas::network::miniprotocols::PRE_PRODUCTION_MAGIC`: the constant is 1.
#[verifier::external_body]
fn pallas_pre_production_magic() -> (m: u64)
    ensures
        m == 1u64,
{
    pallas::network::miniprotocols::PRE_PRODUCTION_MAGIC
}

/// A network identity read as a named preset, or as a custom value.
#[derive(Clone, Copy, Debug, PartialEq, Eq, Structural)]
pub enum Network {
    Mainnet,
    Testnet,
    Preview,
    PreProduction,
    Custom(u64),
}

impl Network {
    /// The magic number that selects this network.
    pub open spec fn spec_magic(self) -> u64 {
        match self {
            Network::Mainnet => MAINNET,
            Network::Testnet => TESTNET,
            Network::Preview => PREVIEW,
            Network::PreProduction => PRE_PRODUCTION,
            Network::Custom(m) => m,
        }
    }

    /// A custom network never carries the number of a preset.
    pub open spec fn well_formed(self) -> bool {
        self matches Network::Custom(m) ==> m != MAINNET && m != TESTNET && m != PREVIEW && m
            != PRE_PRODUCTION
    }

    pub fn magic(self) -> (m: u64)
        ensures
            m == self.spec_magic(),
    {
        match self {
            Network::Mainnet => NetworkMagic::mainnet_magic(),
            Network::Testnet => NetworkMagic::testnet_magic(),
            Network::Preview => NetworkMagic::preview_magic(),
            Network::PreProduction => NetworkMagic::pre_production_magic(),
            Network::Custom(m) => m,
        }
    }
}

/// The preset that a magic number names; any other number is a custom network.
pub open spec fn network_of(magic: u64) -> Network {
    if magic == MAINNET {
        Network::Mainnet
    } else if magic == TESTNET {
        Network::Testnet
    } else if magic == PREVIEW {
        Network::Preview
    } else if magic == PRE_PRODUCTION {
        Network::PreProduction
    } else {
        Network::Custom(magic)
    }
}

/// The magic numbers of the known networks.
pub struct NetworkMagic {}

impl NetworkMagic {
    pub fn mainnet_magic() -> (m: u64)
        ensures
            m == MAINNET,
    {
        pallas_mainnet_magic()
    }

    pub fn testnet_magic() -> (m: u64)
        ensures
            m == TESTNET,
    {
        pallas_testnet_magic()
    }

    pub fn preview_magic() -> (m: u64)
        ensures
            m == PREVIEW,
    {
        pallas_preview_magic()
    }

    pub fn pre_production_magic() -> (m: u64)
        ensures
            m == PRE_PRODUCTION,
    {
        pallas_pre_production_magic()
    }

    /// Reads a magic number as a preset by equality against the known
    /// constants.
    pub fn network(magic: u64) -> (n: Network)
        ensures
            n == network_of(magic),
            n.well_formed(),
            n.spec_magic() == magic,
    {
        if magic == Self::mainnet_magic() {
            Network::Mainnet
        } else if magic == Self::testnet_magic() {
            Network::Testnet
        } else if magic == Self::preview_magic() {
            Network::Preview
        } else if magic == Self::pre_production_magic() {
            Network::PreProduction
        } else {
            Network::Custom(magic)
        }
    }
}

/// Reading a number as a network and taking that network's number gives the
/// number back; a well-formed network is found again from its number.
pub proof fn network_round_trip(magic: u64, n: Network)
    ensures
        network_of(magic).spec_magic() == magic,
        network_of(magic).well_formed(),
        n.well_formed() ==> network_of(n.spec_magic()) == n,
{
}

} // verus!
