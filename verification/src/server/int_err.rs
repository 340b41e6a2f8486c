//! Numbers of the server errors, one per place of failure.

use vstd::prelude::*;

verus! {

/// The checksum table could not be read.
pub const CHECKSUM_FAIL_GET: i64 = 1;

/// The table of values could not be read.
pub const CONFIG_FAIL_GET: i64 = 10;

/// A stored value is not UTF-8.
pub const CONFIG_RSP_CORRUPT: i64 = 20;

/// The transaction that stores a value did not commit.
pub const SET_CONFIG_FAIL: i64 = 30;

/// An object handed in as a value could not be serialized.
pub const SET_CONFIG_SERDE_FAIL: i64 = 31;

/// The worker that ran a handler did not finish.
pub const TASK_SPAWN_FAIL: i64 = 100;

} // verus!
