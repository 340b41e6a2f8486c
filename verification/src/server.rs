//! The handlers of the four methods and the dispatcher in front of them.

use vstd::prelude::*;

use vstd::string::StringSliceAdditionalSpecFns;
use vstd::utf8::{decode_utf8, valid_utf8};

use crate::checksum::{checksum_of, content_hash, decode_checksum, decoded, encode_checksum, be_bytes};
use crate::db::{pair_commit, read_of, table_read, DbView, Read, Update, UpdateView};
use crate::json::{text_of, to_text};
use crate::protocol::{
    ErrorCode, Id, IdView, ParamValue, ParamValueView, Params, ParamsView, Payload, PayloadView,
    Request, RequestView, Response, ResponseView, RpcError, RpcErrorView, Scalar, ScalarView, DATA,
    ID, RESULT, id_view, lookup,
};
use crate::server::log::{
    checksum_read_detail, commit_detail, config_read_detail, entry_fits, serialize_detail, Logged,
};
use crate::server::int_err::{
    CHECKSUM_FAIL_GET, CONFIG_FAIL_GET, CONFIG_RSP_CORRUPT, SET_CONFIG_FAIL,
    SET_CONFIG_SERDE_FAIL, TASK_SPAWN_FAIL,
};

pub mod int_err;
pub mod log;
pub mod tcp;

verus! {

/// Address that the server listens on: the loopback interface.
pub const LOCAL_HOST: [u8; 4] = [127, 0, 0, 1];

/// The response that rejects a request with the detail `msg`.
pub open spec fn invalid_request(msg: Seq<char>, id: Option<IdView>) -> ResponseView {
    ResponseView {
        payload: Err(RpcErrorView { code: ErrorCode::InvalidRequest, data: Some(msg) }),
        id,
    }
}

/// The response that reports the server error number `err`.
pub open spec fn server_error(err: i64, id: Option<IdView>) -> ResponseView {
    ResponseView {
        payload: Err(RpcErrorView { code: ErrorCode::ServerError(err), data: None }),
        id,
    }
}

/// The response to a call of a method that the server does not have.
pub open spec fn method_not_found(id: Option<IdView>) -> ResponseView {
    ResponseView {
        payload: Err(RpcErrorView { code: ErrorCode::MethodNotFound, data: None }),
        id,
    }
}

/// The successful response with an empty result object.
pub open spec fn empty_result(id: Option<IdView>) -> ResponseView {
    ResponseView { payload: Ok(PayloadView::Empty), id }
}

/// The successful response whose result object holds `value` under
/// [`RESULT`].
pub open spec fn value_result(value: ScalarView, id: Option<IdView>) -> ResponseView {
    ResponseView { payload: Ok(PayloadView::Member { name: RESULT@, value }), id }
}

/// Rejects a request, saying why.
pub fn invalid_req(msg: &'static str, id: Option<Id>) -> (r: Response)
    ensures
        r@ == invalid_request(msg@, id_view(id)),
        r.id == id,
{
    Response::error(RpcError { code: ErrorCode::InvalidRequest, data: Some(msg.to_owned()) }, id)
}

/// Reports a failure inside the server by its number.
pub fn internal_err(err: i64, id: Option<Id>) -> (r: Response)
    ensures
        r@ == server_error(err, id_view(id)),
        r.id == id,
{
    Response::error(RpcError { code: ErrorCode::ServerError(err), data: None }, id)
}

/// Answers with a checksum.
pub fn checksum_response(num: u64, id: Option<Id>) -> (r: Response)
    ensures
        r@ == value_result(ScalarView::Number(num), id_view(id)),
        r.id == id,
{
    Response::result(Payload::Member { name: RESULT.to_owned(), value: Scalar::Number(num) }, id)
}

/// The error of the UTF-8 decoder, opaque to the verifier.
#[verifier::external_type_specification]
#[verifier::external_body]
pub struct ExUtf8Error(core::str::Utf8Error);

/// `core::str::from_utf8`: the text that `data` spells, exactly when `data`
/// is valid UTF-8; else the decoder's error.
#[verifier::external_body]
pub(crate) fn as_utf8(data: &[u8]) -> (r: Result<&str, core::str::Utf8Error>)
    ensures
        r is Ok <==> valid_utf8(data@),
        r matches Ok(text) ==> text.spec_bytes() == data@,
{
    core::str::from_utf8(data)
}

/// The response that carries the stored bytes `data` as text: a server error
/// where they are not UTF-8.
pub open spec fn config_reply(data: Seq<u8>, id: Option<IdView>) -> ResponseView {
    if valid_utf8(data) {
        value_result(ScalarView::Text(decode_utf8(data)), id)
    } else {
        server_error(CONFIG_RSP_CORRUPT, id)
    }
}

/// Answers with a stored value.
pub fn config_response(data: &[u8], id: Option<Id>) -> (r: Response)
    ensures
        r@ == config_reply(data@, id_view(id)),
        r.id == id,
{
    match as_utf8(data) {
        Ok(text) => {
            proof {
                vstd::utf8::encode_utf8_decode_utf8(text@);
            }
            Response::result(
                Payload::Member { name: RESULT.to_owned(), value: Scalar::Text(text.to_owned()) },
                id,
            )
        },
        Err(_) => internal_err(CONFIG_RSP_CORRUPT, id),
    }
}

/// The response to `checksum` after the read `read` of the checksum table:
/// the stored number, 0 for a key that holds nothing. Stored bytes that are
/// not a checksum fail the call as a lost worker does.
pub open spec fn checksum_read_reply(read: Read, id: Option<IdView>) -> ResponseView {
    match read {
        Read::Found(bytes) => match decoded(bytes) {
            Some(num) => value_result(ScalarView::Number(num), id),
            None => server_error(TASK_SPAWN_FAIL, id),
        },
        Read::Absent => value_result(ScalarView::Number(0), id),
        Read::Failed => server_error(CHECKSUM_FAIL_GET, id),
    }
}

/// The response to `config` after the read `read` of the table of values:
/// the stored text, the empty text for a key that holds nothing.
pub open spec fn config_read_reply(read: Read, id: Option<IdView>) -> ResponseView {
    match read {
        Read::Found(bytes) => config_reply(bytes, id),
        Read::Absent => config_reply(Seq::empty(), id),
        Read::Failed => server_error(CONFIG_FAIL_GET, id),
    }
}

/// Turns what the checksum table returned into the response to `checksum`.
pub fn checksum_read_response(read: Result<Option<Vec<u8>>, sled::Error>, id: Option<Id>) -> (r:
    Response)
    ensures
        r@ == checksum_read_reply(read_of(read), id_view(id)),
        r.id == id,
{
    match read {
        Ok(Some(bytes)) => match decode_checksum(bytes.as_slice()) {
            Some(num) => checksum_response(num, id),
            None => internal_err(TASK_SPAWN_FAIL, id),
        },
        Ok(None) => checksum_response(0, id),
        Err(_) => internal_err(CHECKSUM_FAIL_GET, id),
    }
}

/// Turns what the table of values returned into the response to `config`.
pub fn config_read_response(read: Result<Option<Vec<u8>>, sled::Error>, id: Option<Id>) -> (r:
    Response)
    ensures
        r@ == config_read_reply(read_of(read), id_view(id)),
        r.id == id,
{
    match read {
        Ok(Some(bytes)) => config_response(bytes.as_slice(), id),
        Ok(None) => {
            let nothing: Vec<u8> = Vec::new();
            config_response(nothing.as_slice(), id)
        },
        Err(_) => internal_err(CONFIG_FAIL_GET, id),
    }
}

/// Detail of the rejection of a call that needs parameters and has none.
pub const MISSING_PARAMS: &'static str = "Missing params";

/// Detail of the rejection of a call without the parameter `id`.
pub const MISSING_ID: &'static str = "Params is missing field 'id'";

/// Detail of the rejection of a call whose `id` is no string.
pub const BAD_ID: &'static str = "Params field 'id' must be a string";

/// Detail of the rejection of a `set_config` without the parameter `data`.
pub const MISSING_DATA: &'static str = "Params is missing field 'data'";

/// Detail of the rejection of a `set_config` whose `data` is neither a
/// string nor an object.
pub const BAD_DATA: &'static str = "Params field 'data' must be a string or object";

/// The configuration key that `params` names: the text of its `id`, or the
/// detail with which the call is rejected.
pub open spec fn key_of(params: ParamsView) -> Result<Seq<char>, Seq<char>> {
    match lookup(params, ID@) {
        Some(ParamValueView::Text(key)) => Ok(key),
        Some(_) => Err(BAD_ID@),
        None => Err(MISSING_ID@),
    }
}

/// Finds the configuration key among the parameters.
pub fn key_param(params: &Params) -> (r: Result<&String, &'static str>)
    ensures
        match r {
            Ok(key) => key_of(params@) == Ok::<Seq<char>, Seq<char>>(key@),
            Err(msg) => key_of(params@) == Err::<Seq<char>, Seq<char>>(msg@),
        },
{
    match params.get(ID) {
        Some(ParamValue::Text(key)) => Ok(key),
        Some(_) => Err(BAD_ID),
        None => Err(MISSING_ID),
    }
}

/// True when `r` is what a read of the table of checksums of `db` under
/// `key` comes to as a response to `checksum`.
pub open spec fn checksum_read_answers(
    db: DbView,
    key: Seq<char>,
    id: Option<IdView>,
    r: ResponseView,
) -> bool {
    exists|read: Read|
        #![trigger table_read(db.checksum, vstd::utf8::encode_utf8(key), read)]
        table_read(db.checksum, vstd::utf8::encode_utf8(key), read) && r == checksum_read_reply(
            read,
            id,
        )
}

/// True when `r` is what a read of the table of values of `db` under `key`
/// comes to as a response to `config`.
pub open spec fn config_read_answers(
    db: DbView,
    key: Seq<char>,
    id: Option<IdView>,
    r: ResponseView,
) -> bool {
    exists|read: Read|
        #![trigger table_read(db.config, vstd::utf8::encode_utf8(key), read)]
        table_read(db.config, vstd::utf8::encode_utf8(key), read) && r == config_read_reply(
            read,
            id,
        )
}

/// True when `r` is a response that `checksum` may give on the tables `db`
/// to a call with the parameters `params`: a rejection where the key is
/// missing or no string, else what a read of the table of checksums under
/// that key comes to.
pub open spec fn checksum_answers(db: DbView, params: ParamsView, id: Option<IdView>, r: ResponseView) -> bool {
    match key_of(params) {
        Ok(key) => checksum_read_answers(db, key, id, r),
        Err(msg) => r == invalid_request(msg, id),
    }
}

/// True when `r` is a response that `config` may give on the tables `db` to
/// a call with the parameters `params`: a rejection where the key is missing
/// or no string, else what a read of the table of values under that key
/// comes to.
pub open spec fn config_answers(db: DbView, params: ParamsView, id: Option<IdView>, r: ResponseView) -> bool {
    match key_of(params) {
        Ok(key) => config_read_answers(db, key, id, r),
        Err(msg) => r == invalid_request(msg, id),
    }
}

/// Handles `checksum`: reads the checksum stored under the key that the
/// parameters name.
pub fn handle_checksum_req(db: DbView, params: Params, id: Option<Id>) -> (r: Response)
    ensures
        r.id == id,
        checksum_answers(db, params@, id_view(id), r@),
{
    checksum_logged(db, params, id).response
}

/// Handles `checksum` as [`handle_checksum_req`] does, and hands out the
/// entry for the log where the call failed inside the server.
pub fn checksum_logged(db: DbView, params: Params, id: Option<Id>) -> (r: Logged)
    ensures
        r.response.id == id,
        checksum_answers(db, params@, id_view(id), r.response@),
        entry_fits(r),
{
    match key_param(&params) {
        Ok(key) => {
            let read = db.read_checksum(key.as_str().as_bytes());
            let detail = checksum_read_detail(&read);
            let ghost outcome = read_of(read);
            let response = checksum_read_response(read, id);
            assert(table_read(db.checksum, vstd::utf8::encode_utf8(key@), outcome) && response@
                == checksum_read_reply(outcome, id_view(id)));
            assert(checksum_read_answers(db, key@, id_view(id), response@));
            Logged { response, detail }
        },
        Err(msg) => Logged { response: invalid_req(msg, id), detail: None },
    }
}

/// Handles `config`: reads the value stored under the key that the
/// parameters name.
pub fn handle_config_req(db: DbView, params: Params, id: Option<Id>) -> (r: Response)
    ensures
        r.id == id,
        config_answers(db, params@, id_view(id), r@),
{
    config_logged(db, params, id).response
}

/// Handles `config` as [`handle_config_req`] does, and hands out the entry
/// for the log where the call failed inside the server.
pub fn config_logged(db: DbView, params: Params, id: Option<Id>) -> (r: Logged)
    ensures
        r.response.id == id,
        config_answers(db, params@, id_view(id), r.response@),
        entry_fits(r),
{
    match key_param(&params) {
        Ok(key) => {
            let read = db.read_config(key.as_str().as_bytes());
            let detail = config_read_detail(&read);
            let ghost outcome = read_of(read);
            let response = config_read_response(read, id);
            assert(table_read(db.config, vstd::utf8::encode_utf8(key@), outcome) && response@
                == config_read_reply(outcome, id_view(id)));
            assert(config_read_answers(db, key@, id_view(id), response@));
            Logged { response, detail }
        },
        Err(msg) => Logged { response: invalid_req(msg, id), detail: None },
    }
}

/// The write that stores the text `value` under `key`: the UTF-8 bytes of
/// both, and the big-endian bytes of the value's checksum.
pub open spec fn update_for(key: Seq<char>, value: Seq<char>) -> UpdateView {
    UpdateView {
        key: vstd::utf8::encode_utf8(key),
        value: vstd::utf8::encode_utf8(value),
        checksum: be_bytes(checksum_of(value)),
    }
}

/// Prepares the write that stores `value` under `key`, and the checksum that
/// it records.
pub fn plan_update(key: &str, value: &str) -> (r: (Update, u64))
    ensures
        r.0@ == update_for(key@, value@),
        r.1 == checksum_of(value@),
{
    let hash: u64 = content_hash(value);
    let update = Update {
        key: vstd::slice::slice_to_vec(key.as_bytes()),
        value: vstd::slice::slice_to_vec(value.as_bytes()),
        checksum: encode_checksum(hash),
    };
    (update, hash)
}

/// The response to `set_config` once the transaction has ended: the new
/// checksum where it committed, a server error where it did not.
pub open spec fn commit_reply(committed: bool, hash: u64, id: Option<IdView>) -> ResponseView {
    if committed {
        value_result(ScalarView::Number(hash), id)
    } else {
        server_error(SET_CONFIG_FAIL, id)
    }
}

/// Turns the end of the transaction into the response to `set_config`.
pub fn commit_response(
    committed: Result<(), sled::transaction::TransactionError<bool>>,
    hash: u64,
    id: Option<Id>,
) -> (r: Response)
    ensures
        r@ == commit_reply(committed is Ok, hash, id_view(id)),
        r.id == id,
{
    match committed {
        Ok(_) => checksum_response(hash, id),
        Err(_) => internal_err(SET_CONFIG_FAIL, id),
    }
}

/// Stores the text `value` under `key`, together with its checksum, in one
/// transaction, and answers with the checksum.
pub fn set_config_response(db: DbView, key: &str, value: &str, id: Option<Id>) -> (r: Response)
    ensures
        r.id == id,
        stored_or_failed(db, key@, value@, id_view(id), r@),
{
    store_logged(db, key, value, id).response
}

/// Stores a text as [`set_config_response`] does, and hands out the entry
/// for the log where the transaction did not commit.
pub fn store_logged(db: DbView, key: &str, value: &str, id: Option<Id>) -> (r: Logged)
    ensures
        r.response.id == id,
        stored_or_failed(db, key@, value@, id_view(id), r.response@),
        entry_fits(r),
{
    let (update, hash) = plan_update(key, value);
    let committed = db.apply(&update);
    let detail = commit_detail(&committed);
    Logged { response: commit_response(committed, hash, id), detail }
}

/// Stores the text that an object was serialized to, where it could be
/// serialized.
pub fn store_serialized(
    db: DbView,
    key: &str,
    text: Result<String, serde_json::Error>,
    id: Option<Id>,
) -> (r: Response)
    ensures
        r.id == id,
        serialized_answers(db, key@, text_of(text), id_view(id), r@),
{
    store_serialized_logged(db, key, text, id).response
}

/// Stores a serialized object as [`store_serialized`] does, and hands out
/// the entry for the log where the object could not be serialized or the
/// transaction did not commit.
pub fn store_serialized_logged(
    db: DbView,
    key: &str,
    text: Result<String, serde_json::Error>,
    id: Option<Id>,
) -> (r: Logged)
    ensures
        r.response.id == id,
        serialized_answers(db, key@, text_of(text), id_view(id), r.response@),
        entry_fits(r),
{
    let detail = serialize_detail(&text);
    match text {
        Ok(value) => store_logged(db, key, value.as_str(), id),
        Err(_) => Logged { response: internal_err(SET_CONFIG_SERDE_FAIL, id), detail },
    }
}

/// True when `r` is a response that `set_config` may give to a call with the
/// parameters `params`: a rejection where the key or the value is missing or
/// of the wrong kind; else the checksum of the text that was stored, which
/// for an object is its compact JSON text, or a server error where the text
/// could not be stored or the object could not be serialized.
pub open spec fn set_config_answers(db: DbView, params: ParamsView, id: Option<IdView>, r: ResponseView) -> bool {
    match key_of(params) {
        Ok(key) => match lookup(params, DATA@) {
            Some(ParamValueView::Text(value)) => stored_or_failed(db, key, value, id, r),
            Some(ParamValueView::Object(text)) => serialized_answers(db, key, text, id, r),
            Some(ParamValueView::Other) => r == invalid_request(BAD_DATA@, id),
            None => r == invalid_request(MISSING_DATA@, id),
        },
        Err(msg) => r == invalid_request(msg, id),
    }
}

/// True when `r` answers an attempt to store an object that serializes to
/// `text`: as for the text where there is one, else with the server error of
/// a failed serialization.
pub open spec fn serialized_answers(
    db: DbView,
    key: Seq<char>,
    text: Option<Seq<char>>,
    id: Option<IdView>,
    r: ResponseView,
) -> bool {
    match text {
        Some(value) => stored_or_failed(db, key, value, id, r),
        None => r == server_error(SET_CONFIG_SERDE_FAIL, id),
    }
}

/// True when `r` answers an attempt to store the text `value` under `key`
/// on the tables `db`: the transaction that puts the value into the table of
/// values and its checksum into the table of checksums has ended, and `r` is
/// the checksum where it committed, the server error of a failed commit
/// where it did not.
pub open spec fn stored_or_failed(
    db: DbView,
    key: Seq<char>,
    value: Seq<char>,
    id: Option<IdView>,
    r: ResponseView,
) -> bool {
    exists|committed: bool|
        #![trigger pair_commit(db.checksum, db.config, update_for(key, value), committed)]
        pair_commit(db.checksum, db.config, update_for(key, value), committed) && r
            == commit_reply(committed, checksum_of(value), id)
}

/// Handles `set_config`: stores the parameter `data` under the key that the
/// parameters name. A string is stored as it is, an object as the text it
/// serializes to.
pub fn handle_set_config_req(db: DbView, params: Params, id: Option<Id>) -> (r: Response)
    ensures
        r.id == id,
        set_config_answers(db, params@, id_view(id), r@),
{
    set_config_logged(db, params, id).response
}

/// Handles `set_config` as [`handle_set_config_req`] does, and hands out the
/// entry for the log where the call failed inside the server.
pub fn set_config_logged(db: DbView, params: Params, id: Option<Id>) -> (r: Logged)
    ensures
        r.response.id == id,
        set_config_answers(db, params@, id_view(id), r.response@),
        entry_fits(r),
{
    let key = match key_param(&params) {
        Ok(key) => key,
        Err(msg) => {
            return Logged { response: invalid_req(msg, id), detail: None };
        },
    };
    match params.get(DATA) {
        Some(ParamValue::Text(value)) => store_logged(db, key.as_str(), value.as_str(), id),
        Some(ParamValue::Object(object)) => store_serialized_logged(
            db,
            key.as_str(),
            to_text(object),
            id,
        ),
        Some(ParamValue::Other) => Logged { response: invalid_req(BAD_DATA, id), detail: None },
        None => Logged { response: invalid_req(MISSING_DATA, id), detail: None },
    }
}

/// Name of the method that answers with an empty result.
pub const PING: &'static str = "ping";

/// Name of the method that reads a checksum.
pub const CHECKSUM: &'static str = "checksum";

/// Name of the method that reads a value.
pub const CONFIG: &'static str = "config";

/// Name of the method that stores a value.
pub const SET_CONFIG: &'static str = "set_config";

/// The methods of the server.
#[derive(Clone, Copy, Debug, PartialEq, Eq, Structural)]
pub enum Method {
    Ping,
    Checksum,
    Config,
    SetConfig,
}

/// The method called `name`: the names are matched exactly.
pub open spec fn method_of(name: Seq<char>) -> Option<Method> {
    if name == PING@ {
        Some(Method::Ping)
    } else if name == CHECKSUM@ {
        Some(Method::Checksum)
    } else if name == CONFIG@ {
        Some(Method::Config)
    } else if name == SET_CONFIG@ {
        Some(Method::SetConfig)
    } else {
        None
    }
}

/// Finds the method that a request names.
pub fn parse_method(name: &String) -> (r: Option<Method>)
    ensures
        r == method_of(name@),
{
    if *name == PING.to_owned() {
        Some(Method::Ping)
    } else if *name == CHECKSUM.to_owned() {
        Some(Method::Checksum)
    } else if *name == CONFIG.to_owned() {
        Some(Method::Config)
    } else if *name == SET_CONFIG.to_owned() {
        Some(Method::SetConfig)
    } else {
        None
    }
}

/// A call that reads or writes the store, and so runs on a worker.
#[derive(Debug, PartialEq)]
pub struct Job {
    /// The method to run: never [`Method::Ping`].
    pub method: Method,
    /// The call's parameters.
    pub params: Params,
    /// The id of the request.
    pub id: Option<Id>,
}

/// What the dispatcher makes of a request.
#[derive(Debug, PartialEq)]
pub enum Dispatch {
    /// The response is known without touching the store.
    Reply(Response),
    /// The store has to be read or written.
    Offload(Job),
}

/// The response that the dispatcher itself gives to a request, if it gives
/// one: to `ping`, to an unknown method, and to a call without parameters of a
/// method that needs them.
pub open spec fn immediate_reply(method: Seq<char>, has_params: bool, id: Option<IdView>) -> Option<
    ResponseView,
> {
    match method_of(method) {
        Some(Method::Ping) => Some(empty_result(id)),
        Some(_) => if has_params {
            None
        } else {
            Some(invalid_request(MISSING_PARAMS@, id))
        },
        None => Some(method_not_found(id)),
    }
}

/// Routes a request by its method name.
pub fn dispatch(request: Request) -> (r: Dispatch)
    ensures
        match immediate_reply(request.method@, request.params is Some, id_view(request.id)) {
            Some(reply) => r matches Dispatch::Reply(response) && response@ == reply
                && response.id == request.id,
            None => r == Dispatch::Offload(
                Job {
                    method: method_of(request.method@)->0,
                    params: request.params->0,
                    id: request.id,
                },
            ),
        },
{
    let Request { method, params, id } = request;
    match parse_method(&method) {
        Some(Method::Ping) => Dispatch::Reply(Response::result(Payload::Empty, id)),
        Some(method) => match params {
            Some(params) => Dispatch::Offload(Job { method, params, id }),
            None => Dispatch::Reply(invalid_req(MISSING_PARAMS, id)),
        },
        None => Dispatch::Reply(
            Response::error(RpcError { code: ErrorCode::MethodNotFound, data: None }, id),
        ),
    }
}

/// The response to a job whose worker did not finish.
pub fn offload_failed(id: Option<Id>) -> (r: Response)
    ensures
        r@ == server_error(TASK_SPAWN_FAIL, id_view(id)),
        r.id == id,
{
    internal_err(TASK_SPAWN_FAIL, id)
}

/// True when `r` is a response that the handler of `method` may give on the
/// tables `db` to a call with the parameters `params`.
pub open spec fn job_answers(
    db: DbView,
    method: Method,
    params: ParamsView,
    id: Option<IdView>,
    r: ResponseView,
) -> bool {
    match method {
        Method::Ping => r == empty_result(id),
        Method::Checksum => checksum_answers(db, params, id, r),
        Method::Config => config_answers(db, params, id, r),
        Method::SetConfig => set_config_answers(db, params, id, r),
    }
}

/// True when `r` is a response that a server on the tables `db` may give to
/// `request`.
pub open spec fn request_answers(db: DbView, request: RequestView, r: ResponseView) -> bool {
    match immediate_reply(request.method, request.params is Some, request.id) {
        Some(reply) => r == reply,
        None => job_answers(db, method_of(request.method)->0, request.params->0, request.id, r),
    }
}

/// Runs the handlers against the tables of one database.
#[derive(Clone)]
pub struct Handler {
    db: DbView,
}

impl Handler {
    /// The tables that the handler works on.
    pub closed spec fn tables(&self) -> DbView {
        self.db
    }

    /// A handler on the tables `db`.
    pub fn new(db: DbView) -> (r: Self)
        ensures
            r.tables() == db,
    {
        Self { db }
    }

    /// Runs the handler of a job. This reads or writes the store, and may
    /// block.
    pub fn run(&self, job: Job) -> (r: Response)
        ensures
            r.id == job.id,
            job_answers(self.tables(), job.method, job.params@, id_view(job.id), r@),
    {
        self.run_logged(job).response
    }

    /// Runs the handler of a job as [`Handler::run`] does, and hands out the
    /// entry for the log where the call failed inside the server.
    pub fn run_logged(&self, job: Job) -> (r: Logged)
        ensures
            r.response.id == job.id,
            job_answers(self.tables(), job.method, job.params@, id_view(job.id), r.response@),
            entry_fits(r),
    {
        let Job { method, params, id } = job;
        match method {
            Method::Ping => Logged { response: Response::result(Payload::Empty, id), detail: None },
            Method::Checksum => checksum_logged(self.db.clone(), params, id),
            Method::Config => config_logged(self.db.clone(), params, id),
            Method::SetConfig => set_config_logged(self.db.clone(), params, id),
        }
    }

    /// Answers a request: routes it, and runs its handler where it has one.
    pub fn handle_request(&self, request: Request) -> (r: Response)
        ensures
            r.id == request.id,
            request_answers(self.tables(), request@, r@),
    {
        match dispatch(request) {
            Dispatch::Reply(response) => response,
            Dispatch::Offload(job) => self.run(job),
        }
    }
}

/// A call of a method that the server does not have is answered with
/// "method not found", and with nothing else; `ping` is answered with the
/// empty result, with or without parameters. Both answers carry the id of
/// the request.
pub proof fn law_unknown_method_and_ping(db: DbView, request: RequestView, r: ResponseView)
    ensures
        method_of(request.method) is None ==> (request_answers(db, request, r) <==> r
            == method_not_found(request.id)),
        request.method == PING@ ==> (request_answers(db, request, r) <==> r == empty_result(
            request.id,
        )),
{
}

} // verus!
