//! What the server's log is to say of a failure inside the server. The
//! caller sees only the number of such a failure; the detail is handed out
//! as text beside the response, for whoever writes the log.

use vstd::prelude::*;
use vstd::string::StringExecFns;

use crate::checksum::decode_checksum;
use crate::json::text_of;
use crate::protocol::{ErrorCode, Response, ResponseView};
use crate::server::int_err::{
    CHECKSUM_FAIL_GET, CONFIG_FAIL_GET, CONFIG_RSP_CORRUPT, SET_CONFIG_FAIL,
    SET_CONFIG_SERDE_FAIL, TASK_SPAWN_FAIL,
};
use crate::db::read_of;
use crate::server::{as_utf8, checksum_read_reply, commit_reply, config_read_reply, config_reply};

verus! {

/// Start of the entry for a failed read of the checksum table.
pub const CHECKSUM_READ_FAILED: &'static str = "Internal error accessing checksum tree: ";

/// Start of the entry for a failed read of the table of values.
pub const CONFIG_READ_FAILED: &'static str = "Internal error accessing config tree: ";

/// Start of the entry for a stored value that is not UTF-8.
pub const CONFIG_CORRUPT: &'static str = "Data corruption in config. Unexpected non-utf8 config: ";

/// The entry for a stored checksum that is not eight bytes long.
pub const CHECKSUM_CORRUPT: &'static str =
    "Data corruption in checksum. Unexpected length of stored checksum";

/// Start of the entry for an object that could not be serialized.
pub const SERIALIZE_FAILED: &'static str = "Internal error serializing json: ";

/// Start of the entry for a transaction that did not commit.
pub const COMMIT_FAILED: &'static str = "Unable to set config: ";

/// A response together with the entry for the log that goes with it.
#[derive(Debug, PartialEq)]
pub struct Logged {
    /// What the caller is sent.
    pub response: Response,
    /// What the log is to say: the detail of a failure inside the server.
    pub detail: Option<String>,
}

/// The number of the server error that `r` reports, if it reports one.
pub open spec fn failure_of(r: ResponseView) -> Option<i64> {
    match r.payload {
        Err(error) => match error.code {
            ErrorCode::ServerError(number) => Some(number),
            _ => None,
        },
        Ok(_) => None,
    }
}

/// How the entry for the server error `number` begins.
pub open spec fn log_prefix(number: i64) -> Seq<char> {
    if number == CHECKSUM_FAIL_GET {
        CHECKSUM_READ_FAILED@
    } else if number == CONFIG_FAIL_GET {
        CONFIG_READ_FAILED@
    } else if number == CONFIG_RSP_CORRUPT {
        CONFIG_CORRUPT@
    } else if number == SET_CONFIG_FAIL {
        COMMIT_FAILED@
    } else if number == SET_CONFIG_SERDE_FAIL {
        SERIALIZE_FAILED@
    } else if number == TASK_SPAWN_FAIL {
        CHECKSUM_CORRUPT@
    } else {
        Seq::empty()
    }
}

/// True when `detail` is the entry that goes with `failure`: there is one
/// exactly for a failure inside the server, and it begins with the words
/// that tell the failures apart.
pub open spec fn detail_fits(detail: Option<String>, failure: Option<i64>) -> bool {
    match failure {
        Some(number) => detail matches Some(text) && log_prefix(number).is_prefix_of(text@),
        None => detail is None,
    }
}

/// True when the entry of `logged` goes with its response.
pub open spec fn entry_fits(logged: Logged) -> bool {
    detail_fits(logged.detail, failure_of(logged.response@))
}

/// The entry that begins with `prefix` and goes on with `cause`.
pub fn entry(prefix: &'static str, cause: &str) -> (r: String)
    ensures
        r@ == prefix@ + cause@,
{
    prefix.to_owned().concat(cause)
}

/// The entry for what a read of the checksum table came to.
pub fn checksum_read_detail(read: &Result<Option<Vec<u8>>, sled::Error>) -> (r: Option<String>)
    ensures
        detail_fits(r, failure_of(checksum_read_reply(read_of(*read), None))),
{
    match read {
        Ok(Some(bytes)) => match decode_checksum(bytes.as_slice()) {
            Some(_) => None,
            None => Some(entry(CHECKSUM_CORRUPT, "")),
        },
        Ok(None) => None,
        Err(error) => Some(entry(CHECKSUM_READ_FAILED, error.to_string().as_str())),
    }
}

/// The entry for stored bytes that are to be sent as text.
pub fn config_detail(data: &[u8]) -> (r: Option<String>)
    ensures
        detail_fits(r, failure_of(config_reply(data@, None))),
{
    match as_utf8(data) {
        Ok(_) => None,
        Err(error) => Some(entry(CONFIG_CORRUPT, error.to_string().as_str())),
    }
}

/// The entry for what a read of the table of values came to.
pub fn config_read_detail(read: &Result<Option<Vec<u8>>, sled::Error>) -> (r: Option<String>)
    ensures
        detail_fits(r, failure_of(config_read_reply(read_of(*read), None))),
{
    match read {
        Ok(Some(bytes)) => config_detail(bytes.as_slice()),
        Ok(None) => {
            let nothing: Vec<u8> = Vec::new();
            config_detail(nothing.as_slice())
        },
        Err(error) => Some(entry(CONFIG_READ_FAILED, error.to_string().as_str())),
    }
}

/// The entry for how the transaction that stores a value ended.
pub fn commit_detail(committed: &Result<(), sled::transaction::TransactionError<bool>>) -> (r: Option<
    String,
>)
    ensures
        detail_fits(r, failure_of(commit_reply(*committed is Ok, 0, None))),
{
    match committed {
        Ok(_) => None,
        Err(error) => Some(entry(COMMIT_FAILED, error.to_string().as_str())),
    }
}

/// The entry for what serializing an object came to.
pub fn serialize_detail(text: &Result<String, serde_json::Error>) -> (r: Option<String>)
    ensures
        r is Some <==> text_of(*text) is None,
        r matches Some(entry) ==> SERIALIZE_FAILED@.is_prefix_of(entry@),
{
    match text {
        Ok(_) => None,
        Err(error) => Some(entry(SERIALIZE_FAILED, error.to_string().as_str())),
    }
}

} // verus!
