//! What the server is started with.

use vstd::prelude::*;

use crate::db::Db;

verus! {

/// The settings of one run of the server.
pub struct Cli {
    /// Port to listen on.
    pub port: u16,
    /// The open database.
    pub db: Db,
}

} // verus!
