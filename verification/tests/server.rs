use config_store::checksum::content_hash;
use config_store::db::{Db, DbView, Update, CACHE_CAPACITY, MIN_CACHE_CAPACITY};
use config_store::json::JsonObject;
use config_store::protocol::{
    ErrorCode, Id, Member, ParamValue, Params, Payload, Request, Response, RpcError, Scalar,
};
use config_store::server::int_err::{
    CHECKSUM_FAIL_GET, CONFIG_FAIL_GET, CONFIG_RSP_CORRUPT, SET_CONFIG_FAIL,
    SET_CONFIG_SERDE_FAIL, TASK_SPAWN_FAIL,
};
use config_store::server::log::{
    checksum_read_detail, commit_detail, config_detail, config_read_detail, entry, serialize_detail,
    Logged, CHECKSUM_CORRUPT, CHECKSUM_READ_FAILED, COMMIT_FAILED, CONFIG_CORRUPT,
    CONFIG_READ_FAILED, SERIALIZE_FAILED,
};
use config_store::server::{
    checksum_logged, config_logged, set_config_logged, store_logged, store_serialized_logged,
    checksum_read_response, checksum_response, commit_response, config_read_response,
    config_response, dispatch, handle_checksum_req, handle_config_req, handle_set_config_req,
    internal_err, invalid_req, key_param, offload_failed, parse_method, plan_update,
    set_config_response, store_serialized, Dispatch, Handler, Job, Method,
};

fn open(name: &str) -> Db {
    let stamp = std::time::SystemTime::now()
        .duration_since(std::time::UNIX_EPOCH)
        .map(|elapsed| elapsed.as_nanos())
        .unwrap_or(0);
    let path = format!("/tmp/config_store_tests/server_{}_{}", name, stamp);
    Db::open(&path).expect("the database opens")
}

fn stored_value(view: &DbView, key: &[u8]) -> Option<Vec<u8>> {
    view.config.get(key).expect("the table is read").map(|bytes| bytes.to_vec())
}

fn stored_checksum(view: &DbView, key: &[u8]) -> Option<Vec<u8>> {
    view.checksum.get(key).expect("the table is read").map(|bytes| bytes.to_vec())
}

fn params(members: Vec<(&str, ParamValue)>) -> Params {
    Params {
        members: members
            .into_iter()
            .map(|(name, value)| Member { name: name.to_owned(), value })
            .collect(),
    }
}

fn text(value: &str) -> ParamValue {
    ParamValue::Text(value.to_owned())
}

fn number(value: u64, id: Option<Id>) -> Response {
    Response {
        payload: Ok(Payload::Member { name: "result".to_owned(), value: Scalar::Number(value) }),
        id,
    }
}

fn string(value: &str, id: Option<Id>) -> Response {
    Response {
        payload: Ok(Payload::Member {
            name: "result".to_owned(),
            value: Scalar::Text(value.to_owned()),
        }),
        id,
    }
}

fn rejected(detail: &str, id: Option<Id>) -> Response {
    Response {
        payload: Err(RpcError { code: ErrorCode::InvalidRequest, data: Some(detail.to_owned()) }),
        id,
    }
}

fn failed(number: i64, id: Option<Id>) -> Response {
    Response { payload: Err(RpcError { code: ErrorCode::ServerError(number), data: None }), id }
}

fn engine_error() -> sled::Error {
    sled::Error::Unsupported("test".to_owned())
}

fn request(method: &str, params: Option<Params>, id: Option<Id>) -> Request {
    Request { method: method.to_owned(), params, id }
}

#[test]
fn error_numbers_are_distinct_and_stable() {
    assert_eq!(CHECKSUM_FAIL_GET, 1);
    assert_eq!(CONFIG_FAIL_GET, 10);
    assert_eq!(CONFIG_RSP_CORRUPT, 20);
    assert_eq!(SET_CONFIG_FAIL, 30);
    assert_eq!(SET_CONFIG_SERDE_FAIL, 31);
    assert_eq!(TASK_SPAWN_FAIL, 100);
}

#[test]
fn builds_the_basic_responses() {
    assert_eq!(invalid_req("why", Some(Id::Num(1))), rejected("why", Some(Id::Num(1))));
    assert_eq!(internal_err(42, None), failed(42, None));
    assert_eq!(checksum_response(7, Some(Id::Num(2))), number(7, Some(Id::Num(2))));
    assert_eq!(config_response(b"text", Some(Id::Num(3))), string("text", Some(Id::Num(3))));
    assert_eq!(config_response(b"", None), string("", None));
    assert_eq!(offload_failed(Some(Id::Num(4))), failed(100, Some(Id::Num(4))));
}

#[test]
fn stored_bytes_that_are_not_utf8_are_corruption() {
    assert_eq!(config_response(&[0xff, 0xfe], Some(Id::Num(1))), failed(20, Some(Id::Num(1))));
    assert_eq!(config_response(&[b'a', 0x80], None), failed(20, None));
    assert_eq!(config_response("héllo".as_bytes(), None), string("héllo", None));
}

#[test]
fn checksum_read_outcomes() {
    let id = Some(Id::Num(1));
    assert_eq!(checksum_read_response(Ok(None), id.clone()), number(0, id.clone()));
    assert_eq!(
        checksum_read_response(Ok(Some(vec![0, 0, 0, 0, 0, 0, 1, 2])), id.clone()),
        number(258, id.clone())
    );
    assert_eq!(checksum_read_response(Err(engine_error()), id.clone()), failed(1, id.clone()));
    assert_eq!(checksum_read_response(Ok(Some(vec![1, 2, 3])), id.clone()), failed(100, id));
}

#[test]
fn config_read_outcomes() {
    let id = Some(Id::Str("r".to_owned()));
    assert_eq!(config_read_response(Ok(None), id.clone()), string("", id.clone()));
    assert_eq!(config_read_response(Ok(Some(b"v".to_vec())), id.clone()), string("v", id.clone()));
    assert_eq!(config_read_response(Err(engine_error()), id.clone()), failed(10, id.clone()));
    assert_eq!(config_read_response(Ok(Some(vec![0xc0])), id.clone()), failed(20, id));
}

#[test]
fn commit_outcomes() {
    let id = Some(Id::Num(9));
    assert_eq!(commit_response(Ok(()), 5, id.clone()), number(5, id.clone()));
    let aborted = sled::transaction::TransactionError::Abort(true);
    assert_eq!(commit_response(Err(aborted), 5, id.clone()), failed(30, id.clone()));
    let storage = sled::transaction::TransactionError::Storage(engine_error());
    assert_eq!(commit_response(Err(storage), 5, id.clone()), failed(30, id));
}

#[test]
fn key_is_the_text_of_id() {
    assert_eq!(key_param(&params(vec![("id", text("k"))])), Ok(&"k".to_owned()));
    assert_eq!(
        key_param(&params(vec![("data", text("v")), ("id", text("k"))])),
        Ok(&"k".to_owned())
    );
    assert_eq!(key_param(&params(vec![])), Err("Params is missing field 'id'"));
    assert_eq!(key_param(&params(vec![("ID", text("k"))])), Err("Params is missing field 'id'"));
    assert_eq!(
        key_param(&params(vec![("id", ParamValue::Other)])),
        Err("Params field 'id' must be a string")
    );
    let object = ParamValue::Object(JsonObject { members: serde_json::Map::new() });
    assert_eq!(key_param(&params(vec![("id", object)])), Err("Params field 'id' must be a string"));
    assert_eq!(
        key_param(&params(vec![("id", text("first")), ("id", text("second"))])),
        Ok(&"first".to_owned())
    );
}

#[test]
fn plans_the_write_of_a_value() {
    let (update, hash) = plan_update("a", "hello");
    assert_eq!(hash, 0x9555_e855_5c62_dcfd);
    assert_eq!(
        update,
        Update {
            key: b"a".to_vec(),
            value: b"hello".to_vec(),
            checksum: vec![0x95, 0x55, 0xe8, 0x55, 0x5c, 0x62, 0xdc, 0xfd],
        }
    );
}

#[test]
fn unwritten_key_reads_as_zero_and_empty() {
    let db = open("unwritten");
    let id = Some(Id::Num(3));
    assert_eq!(
        handle_checksum_req(db.view(), params(vec![("id", text("missing"))]), id.clone()),
        number(0, id.clone())
    );
    assert_eq!(
        handle_config_req(db.view(), params(vec![("id", text("missing"))]), id.clone()),
        string("", id)
    );
}

#[test]
fn written_value_reads_back_with_its_checksum() {
    let db = open("written");
    let hash = content_hash("hello");
    let stored = handle_set_config_req(
        db.view(),
        params(vec![("id", text("a")), ("data", text("hello"))]),
        Some(Id::Num(1)),
    );
    assert_eq!(stored, number(hash, Some(Id::Num(1))));
    assert_eq!(
        handle_checksum_req(db.view(), params(vec![("id", text("a"))]), Some(Id::Num(2))),
        number(hash, Some(Id::Num(2)))
    );
    assert_eq!(
        handle_config_req(db.view(), params(vec![("id", text("a"))]), Some(Id::Num(3))),
        string("hello", Some(Id::Num(3)))
    );
    assert_eq!(
        handle_config_req(db.view(), params(vec![("id", text("b"))]), Some(Id::Num(4))),
        string("", Some(Id::Num(4)))
    );
}

#[test]
fn overwriting_replaces_value_and_checksum() {
    let db = open("overwrite");
    let view = db.view();
    assert_eq!(set_config_response(view.clone(), "k", "one", None), number(content_hash("one"), None));
    assert_eq!(set_config_response(view.clone(), "k", "two", None), number(content_hash("two"), None));
    assert_eq!(stored_value(&view, b"k"), Some(b"two".to_vec()));
    assert_eq!(stored_checksum(&view, b"k"), Some(content_hash("two").to_be_bytes().to_vec()));
    assert_eq!(stored_value(&view, b"other"), None);
    assert_eq!(stored_checksum(&view, b"other"), None);
}

#[test]
fn tables_are_written_together() {
    let db = open("together");
    let view = db.view();
    assert_eq!(stored_value(&view, b"pair"), None);
    assert_eq!(stored_checksum(&view, b"pair"), None);
    assert_eq!(
        set_config_response(view.clone(), "pair", "value", None),
        number(content_hash("value"), None)
    );
    assert_eq!(stored_value(&view, b"pair"), Some(b"value".to_vec()));
    assert_eq!(stored_checksum(&view, b"pair"), Some(content_hash("value").to_be_bytes().to_vec()));
    assert_eq!(view.config.len(), 1);
    assert_eq!(view.checksum.len(), 1);
}

#[test]
fn object_is_stored_as_its_serialization() {
    let db = open("object");
    let object: serde_json::Map<String, serde_json::Value> =
        serde_json::from_str(r#" { "b" : [1, 2], "a" : { "x" : null } } "#).expect("an object");
    let data = ParamValue::Object(JsonObject { members: object });
    let expected = r#"{"a":{"x":null},"b":[1,2]}"#;
    let stored =
        handle_set_config_req(db.view(), params(vec![("id", text("o")), ("data", data)]), Some(Id::Num(1)));
    assert_eq!(stored, number(content_hash(expected), Some(Id::Num(1))));
    assert_eq!(
        handle_config_req(db.view(), params(vec![("id", text("o"))]), None),
        string(expected, None)
    );
    assert_eq!(
        handle_checksum_req(db.view(), params(vec![("id", text("o"))]), None),
        number(content_hash(expected), None)
    );
}

#[test]
fn serialization_outcomes() {
    let db = open("serialized");
    let error = serde_json::from_str::<u8>("x").expect_err("no number");
    assert_eq!(store_serialized(db.view(), "k", Err(error), Some(Id::Num(1))), failed(31, Some(Id::Num(1))));
    assert_eq!(
        store_serialized(db.view(), "k", Ok("{}".to_owned()), Some(Id::Num(2))),
        number(content_hash("{}"), Some(Id::Num(2)))
    );
    assert_eq!(stored_value(&db.view(), b"k"), Some(b"{}".to_vec()));
}

#[test]
fn set_config_rejects_bad_params() {
    let db = open("rejects");
    let id = Some(Id::Num(1));
    let cases = vec![
        (params(vec![("data", text("v"))]), "Params is missing field 'id'"),
        (params(vec![("id", ParamValue::Other), ("data", text("v"))]), "Params field 'id' must be a string"),
        (params(vec![("id", text("k"))]), "Params is missing field 'data'"),
        (
            params(vec![("id", text("k")), ("data", ParamValue::Other)]),
            "Params field 'data' must be a string or object",
        ),
    ];
    for (params, detail) in cases {
        assert_eq!(handle_set_config_req(db.view(), params, id.clone()), rejected(detail, id.clone()));
    }
    assert_eq!(stored_value(&db.view(), b"k"), None);
    assert_eq!(stored_checksum(&db.view(), b"k"), None);
}

#[test]
fn reads_reject_bad_params() {
    let db = open("reads_reject");
    let id = Some(Id::Num(1));
    assert_eq!(
        handle_checksum_req(db.view(), params(vec![]), id.clone()),
        rejected("Params is missing field 'id'", id.clone())
    );
    assert_eq!(
        handle_checksum_req(db.view(), params(vec![("id", ParamValue::Other)]), id.clone()),
        rejected("Params field 'id' must be a string", id.clone())
    );
    assert_eq!(
        handle_config_req(db.view(), params(vec![]), id.clone()),
        rejected("Params is missing field 'id'", id.clone())
    );
    assert_eq!(
        handle_config_req(db.view(), params(vec![("id", ParamValue::Other)]), id.clone()),
        rejected("Params field 'id' must be a string", id)
    );
}

#[test]
fn method_names_are_matched_exactly() {
    assert_eq!(parse_method(&"ping".to_owned()), Some(Method::Ping));
    assert_eq!(parse_method(&"checksum".to_owned()), Some(Method::Checksum));
    assert_eq!(parse_method(&"config".to_owned()), Some(Method::Config));
    assert_eq!(parse_method(&"set_config".to_owned()), Some(Method::SetConfig));
    for name in ["", "Ping", "ping ", "cheksum", "bogus", "setconfig", "config\0"] {
        assert_eq!(parse_method(&name.to_owned()), None);
    }
}

#[test]
fn dispatch_answers_what_needs_no_store() {
    let id = Some(Id::Num(1));
    let empty = Response { payload: Ok(Payload::Empty), id: id.clone() };
    assert_eq!(dispatch(request("ping", None, id.clone())), Dispatch::Reply(empty));
    let with_params = dispatch(request("ping", Some(params(vec![("x", text("y"))])), id.clone()));
    assert_eq!(with_params, Dispatch::Reply(Response { payload: Ok(Payload::Empty), id: id.clone() }));
    let not_found = Response {
        payload: Err(RpcError { code: ErrorCode::MethodNotFound, data: None }),
        id: Some(Id::Num(5)),
    };
    assert_eq!(dispatch(request("bogus", None, Some(Id::Num(5)))), Dispatch::Reply(not_found));
    for method in ["checksum", "config", "set_config"] {
        assert_eq!(
            dispatch(request(method, None, id.clone())),
            Dispatch::Reply(rejected("Missing params", id.clone()))
        );
    }
}

#[test]
fn dispatch_offloads_what_touches_the_store() {
    let cases = [("checksum", Method::Checksum), ("config", Method::Config), ("set_config", Method::SetConfig)];
    for (name, method) in cases {
        let found = dispatch(request(name, Some(params(vec![("id", text("k"))])), Some(Id::Num(8))));
        assert_eq!(
            found,
            Dispatch::Offload(Job { method, params: params(vec![("id", text("k"))]), id: Some(Id::Num(8)) })
        );
    }
}

#[test]
fn handler_runs_jobs_and_requests() {
    let db = open("handler");
    let handler = Handler::new(db.view());
    let written = handler.run(Job {
        method: Method::SetConfig,
        params: params(vec![("id", text("a")), ("data", text("hello"))]),
        id: Some(Id::Num(1)),
    });
    assert_eq!(written, number(content_hash("hello"), Some(Id::Num(1))));
    let read = handler.handle_request(request("config", Some(params(vec![("id", text("a"))])), Some(Id::Num(2))));
    assert_eq!(read, string("hello", Some(Id::Num(2))));
    let sum = handler.clone().handle_request(request(
        "checksum",
        Some(params(vec![("id", text("a"))])),
        Some(Id::Str("s".to_owned())),
    ));
    assert_eq!(sum, number(content_hash("hello"), Some(Id::Str("s".to_owned()))));
    let ping = handler.run(Job { method: Method::Ping, params: params(vec![]), id: None });
    assert_eq!(ping, Response { payload: Ok(Payload::Empty), id: None });
    let bogus = handler.handle_request(request("bogus", None, Some(Id::Num(5))));
    assert_eq!(bogus.payload, Err(RpcError { code: ErrorCode::MethodNotFound, data: None }));
    assert_eq!(bogus.id, Some(Id::Num(5)));
}

#[test]
fn database_reopens_with_what_was_stored() {
    let stamp = std::time::SystemTime::now()
        .duration_since(std::time::UNIX_EPOCH)
        .map(|elapsed| elapsed.as_nanos())
        .unwrap_or(0);
    let path = format!("/tmp/config_store_tests/server_reopen_{}", stamp);
    {
        let db = Db::open(&path).expect("the database opens");
        let view: DbView = db.view();
        assert_eq!(set_config_response(view, "kept", "value", None), number(content_hash("value"), None));
    }
    let db = Db::open(&path).expect("the database opens again");
    assert_eq!(
        handle_config_req(db.view(), params(vec![("id", text("kept"))]), None),
        string("value", None)
    );
}

#[test]
fn database_has_the_tables_config_and_checksum() {
    let db = open("tables");
    let view = db.view();
    assert_eq!(view.config.name(), b"config");
    assert_eq!(view.checksum.name(), b"checksum");
    view.config.insert(b"only", b"here".to_vec()).expect("the table is written");
    assert_eq!(stored_value(&view, b"only"), Some(b"here".to_vec()));
    assert_eq!(stored_checksum(&view, b"only"), None);
    let again = db.view();
    assert_eq!(again.config.name(), b"config");
    assert_eq!(again.checksum.name(), b"checksum");
    assert_eq!(stored_value(&again.clone(), b"only"), Some(b"here".to_vec()));
}

#[test]
fn entries_begin_with_what_tells_them_apart() {
    assert_eq!(CHECKSUM_READ_FAILED, "Internal error accessing checksum tree: ");
    assert_eq!(CONFIG_READ_FAILED, "Internal error accessing config tree: ");
    assert_eq!(CONFIG_CORRUPT, "Data corruption in config. Unexpected non-utf8 config: ");
    assert_eq!(CHECKSUM_CORRUPT, "Data corruption in checksum. Unexpected length of stored checksum");
    assert_eq!(SERIALIZE_FAILED, "Internal error serializing json: ");
    assert_eq!(COMMIT_FAILED, "Unable to set config: ");
    assert_eq!(entry("Unable to set config: ", "why"), "Unable to set config: why");
    assert_eq!(entry("all", ""), "all");
}

#[test]
fn read_failures_are_told_in_detail() {
    assert_eq!(checksum_read_detail(&Ok(None)), None);
    assert_eq!(checksum_read_detail(&Ok(Some(vec![0; 8]))), None);
    assert_eq!(checksum_read_detail(&Ok(Some(vec![0; 7]))), Some(CHECKSUM_CORRUPT.to_owned()));
    assert_eq!(
        checksum_read_detail(&Err(engine_error())),
        Some(format!("Internal error accessing checksum tree: {}", engine_error()))
    );
    assert_eq!(config_read_detail(&Ok(None)), None);
    assert_eq!(config_read_detail(&Ok(Some(b"text".to_vec()))), None);
    assert_eq!(
        config_read_detail(&Err(engine_error())),
        Some(format!("Internal error accessing config tree: {}", engine_error()))
    );
    let broken = std::str::from_utf8(&[b'a', 0xff]).expect_err("no UTF-8");
    assert_eq!(
        config_read_detail(&Ok(Some(vec![b'a', 0xff]))),
        Some(format!("Data corruption in config. Unexpected non-utf8 config: {}", broken))
    );
    assert_eq!(config_detail(b"fine"), None);
    assert_eq!(
        config_detail(&[b'a', 0xff]),
        Some(format!("Data corruption in config. Unexpected non-utf8 config: {}", broken))
    );
}

#[test]
fn write_failures_are_told_in_detail() {
    assert_eq!(commit_detail(&Ok(())), None);
    let storage = sled::transaction::TransactionError::Storage(engine_error());
    assert_eq!(
        commit_detail(&Err(storage.clone())),
        Some(format!("Unable to set config: {}", storage))
    );
    assert_eq!(serialize_detail(&Ok("{}".to_owned())), None);
    let error = serde_json::from_str::<u8>("x").expect_err("no number");
    let text = format!("Internal error serializing json: {}", error);
    assert_eq!(serialize_detail(&Err(error)), Some(text));
}

#[test]
fn handlers_hand_out_the_entry_with_the_response() {
    let db = open("logged");
    let view = db.view();
    let id = Some(Id::Num(1));
    assert_eq!(
        store_logged(view.clone(), "k", "v", id.clone()),
        Logged { response: number(content_hash("v"), id.clone()), detail: None }
    );
    assert_eq!(
        checksum_logged(view.clone(), params(vec![("id", text("k"))]), id.clone()),
        Logged { response: number(content_hash("v"), id.clone()), detail: None }
    );
    assert_eq!(
        config_logged(view.clone(), params(vec![("id", text("k"))]), id.clone()),
        Logged { response: string("v", id.clone()), detail: None }
    );
    assert_eq!(
        config_logged(view.clone(), params(vec![]), id.clone()),
        Logged { response: rejected("Params is missing field 'id'", id.clone()), detail: None }
    );
    assert_eq!(
        set_config_logged(view.clone(), params(vec![("id", text("k"))]), id.clone()),
        Logged { response: rejected("Params is missing field 'data'", id.clone()), detail: None }
    );
    let error = serde_json::from_str::<u8>("x").expect_err("no number");
    let entry = format!("Internal error serializing json: {}", error);
    assert_eq!(
        store_serialized_logged(view.clone(), "k", Err(error), id.clone()),
        Logged { response: failed(31, id.clone()), detail: Some(entry) }
    );
}

#[test]
fn corrupt_tables_are_logged_and_answered_with_a_number() {
    let db = open("corrupt");
    let view = db.view();
    view.config.insert(b"bad", vec![0xff, 0xfe]).expect("the table is written");
    view.checksum.insert(b"bad", vec![1, 2, 3]).expect("the table is written");
    let handler = Handler::new(db.view());
    let value = handler.run_logged(Job {
        method: Method::Config,
        params: params(vec![("id", text("bad"))]),
        id: Some(Id::Num(1)),
    });
    assert_eq!(value.response, failed(20, Some(Id::Num(1))));
    assert!(value
        .detail
        .is_some_and(|entry| entry.starts_with(CONFIG_CORRUPT) && entry.len() > CONFIG_CORRUPT.len()));
    let sum = handler.run_logged(Job {
        method: Method::Checksum,
        params: params(vec![("id", text("bad"))]),
        id: Some(Id::Num(2)),
    });
    assert_eq!(
        sum,
        Logged { response: failed(100, Some(Id::Num(2))), detail: Some(CHECKSUM_CORRUPT.to_owned()) }
    );
    let ping = handler.run_logged(Job { method: Method::Ping, params: params(vec![]), id: None });
    assert_eq!(ping, Logged { response: Response { payload: Ok(Payload::Empty), id: None }, detail: None });
}

#[test]
fn page_cache_is_large_enough_for_the_engine() {
    assert_eq!(MIN_CACHE_CAPACITY, 256);
    assert_eq!(CACHE_CAPACITY, 128_000);
    assert!(CACHE_CAPACITY >= MIN_CACHE_CAPACITY);
}

#[test]
fn each_method_reads_its_own_table() {
    let db = open("own_table");
    let view = db.view();
    view.config.insert(b"v", b"text".to_vec()).expect("the table is written");
    view.checksum.insert(b"c", 7u64.to_be_bytes().to_vec()).expect("the table is written");
    let id = Some(Id::Num(1));
    assert_eq!(
        handle_config_req(db.view(), params(vec![("id", text("v"))]), id.clone()),
        string("text", id.clone())
    );
    assert_eq!(
        handle_checksum_req(db.view(), params(vec![("id", text("v"))]), id.clone()),
        number(0, id.clone())
    );
    assert_eq!(
        handle_checksum_req(db.view(), params(vec![("id", text("c"))]), id.clone()),
        number(7, id.clone())
    );
    assert_eq!(
        handle_config_req(db.view(), params(vec![("id", text("c"))]), id.clone()),
        string("", id)
    );
}

#[test]
fn value_and_checksum_go_to_their_own_tables() {
    let db = open("own_table_write");
    let view = db.view();
    assert_eq!(
        set_config_response(view.clone(), "k", "12345678", None),
        number(content_hash("12345678"), None)
    );
    assert_eq!(view.config.get(b"k").expect("read").map(|b| b.to_vec()), Some(b"12345678".to_vec()));
    assert_eq!(
        view.checksum.get(b"k").expect("read").map(|b| b.to_vec()),
        Some(content_hash("12345678").to_be_bytes().to_vec())
    );
    assert_ne!(content_hash("12345678").to_be_bytes().to_vec(), b"12345678".to_vec());
}
