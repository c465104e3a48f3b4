//! The I/O-free core of a typed client for Bitcoin Core's JSON-RPC interface.
//!
//! The crate decides; it never touches the network. It builds the
//! Basic-Authentication header value, packages every remote method into a
//! request envelope, and owns the one place where a call is repeated: the
//! bounded retry that tolerates a node which is still starting.

pub mod auth;
pub mod client;
pub mod request;
pub mod retry;

pub use client::BitcoinCoreClient;
pub use request::{JsonRpcVersion, RpcRequest, TxOutConfirmations};
pub use retry::{Dispatch, Next, Reply, RetryPolicy, RpcError};
