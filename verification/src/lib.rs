//! Signed remote calls to a DNS provider, and the record replacement protocol
//! built on them.

pub mod alidns;
pub mod encode;
pub mod json;
pub mod order;
pub mod response;
pub mod rpc;
pub mod signer;
pub mod text;
pub mod update;

pub use crate::rpc::{Call, Record, RpcClient};
