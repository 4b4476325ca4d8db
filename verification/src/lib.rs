//! A verified bridge that serves reth's read-side provider queries from the
//! in-memory chain of an anvil development node.
pub mod primitives;
pub mod block;
pub mod receipt;
pub mod convert;
pub mod backend;
pub mod memory;
pub mod provider;
pub mod network;
pub mod reth_api;
pub mod trie;
pub mod text;
pub mod create2;
pub mod laws;
pub mod query_laws;
