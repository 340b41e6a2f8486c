//! A key/value configuration store served over framed JSON-RPC.

pub mod checksum;
pub mod cli;
pub mod codec;
pub mod db;
pub mod framing;
pub mod json;
pub mod model;
pub mod protocol;
pub mod server;
