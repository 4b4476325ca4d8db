//! The network side of a local development node: no peers, never syncing.
use vstd::prelude::*;
use crate::primitives::{B256, U256};

verus! {

/// An IPv4 socket address.
#[derive(Clone, Copy, Debug, PartialEq, Eq, Structural)]
pub struct SocketAddrV4 {
    pub a: u8,
    pub b: u8,
    pub c: u8,
    pub d: u8,
    pub port: u16,
}

/// A protocol capability a node announces.
pub struct Capability {
    pub name: String,
    pub version: u64,
}

/// The `eth` protocol facts a node reports: the chain's genesis configuration
/// is left out.
#[derive(Clone, Copy, Debug, PartialEq, Eq, Structural)]
pub struct EthProtocolInfo {
    pub network: u64,
    pub difficulty: Option<U256>,
    pub genesis: B256,
    pub head: B256,
}

/// What a node reports of its network.
pub struct NetworkStatus {
    pub client_version: String,
    pub protocol_version: u64,
    pub eth_protocol_info: EthProtocolInfo,
    pub capabilities: Vec<Capability>,
}

/// Noop network adapter. Anvil is a local dev node with no real p2p.
#[derive(Clone, Copy, Debug)]
pub struct AnvilNetwork {
    chain_id: u64,
}

impl AnvilNetwork {
    pub closed spec fn spec_chain_id(&self) -> u64 {
        self.chain_id
    }

    pub fn new(chain_id: u64) -> (r: Self)
        ensures
            r.spec_chain_id() == chain_id,
    {
        AnvilNetwork { chain_id }
    }

    /// The loopback address with no port.
    pub fn local_addr(&self) -> (r: SocketAddrV4)
        ensures
            r == (SocketAddrV4 { a: 127, b: 0, c: 0, d: 1, port: 0 }),
    {
        SocketAddrV4 { a: 127, b: 0, c: 0, d: 1, port: 0 }
    }

    /// A fixed status: client `anvil/0.0.0`, protocol version 0, network 1,
    /// no difficulty, zero genesis and head hashes, no capabilities.
    pub fn network_status(&self) -> (r: NetworkStatus)
        ensures
            r.client_version@ == "anvil/0.0.0"@,
            r.protocol_version == 0,
            r.eth_protocol_info == (EthProtocolInfo {
                network: 1,
                difficulty: None,
                genesis: B256::spec_zero(),
                head: B256::spec_zero(),
            }),
            r.capabilities@.len() == 0,
    {
        NetworkStatus {
            client_version: "anvil/0.0.0".to_owned(),
            protocol_version: 0,
            eth_protocol_info: EthProtocolInfo {
                network: 1,
                difficulty: None,
                genesis: B256::zero(),
                head: B256::zero(),
            },
            capabilities: Vec::new(),
        }
    }

    pub fn chain_id(&self) -> (r: u64)
        ensures
            r == self.spec_chain_id(),
    {
        self.chain_id
    }

    pub fn is_syncing(&self) -> (r: bool)
        ensures
            !r,
    {
        false
    }

    pub fn is_initially_syncing(&self) -> (r: bool)
        ensures
            !r,
    {
        false
    }
}

} // verus!
