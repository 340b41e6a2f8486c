//! Requests from bytes and responses to bytes. The JSON itself is
//! `serde_json`'s and the shape of the messages `json_rpc_types`'s; both are
//! called here and nowhere else.

use vstd::prelude::*;

use crate::json::JsonObject;
use crate::protocol::{
    Id, IdView, Member, ParamValue, Params, Payload, PayloadView, Request, RequestView, Response,
    ResponseView, Scalar, id_fits, id_view, params_distinct,
};

verus! {

/// What `payload` decodes to as one JSON-RPC 2.0 request: `None` where it is
/// not the JSON text of a request object.
pub uninterp spec fn parsed_request(payload: Seq<u8>) -> Option<RequestView>;

/// The JSON text of a response, given as its result object or its error's
/// number and detail, and the id.
pub uninterp spec fn encoded_response(
    outcome: Result<PayloadView, (i64, Option<Seq<char>>)>,
    id: Option<IdView>,
) -> Option<Seq<u8>>;

/// The first byte that JSON text holds as it is: the space. The bytes below
/// it are the control characters.
pub const FIRST_PLAIN_BYTE: u8 = 0x20;

/// View of what decoding a request came to: the request, or nothing.
pub open spec fn request_view(decoded: Result<Request, serde_json::Error>) -> Option<RequestView> {
    match decoded {
        Ok(request) => Some(request@),
        Err(_) => None,
    }
}

/// View of optional bytes.
pub open spec fn bytes_view(bytes: Option<Vec<u8>>) -> Option<Seq<u8>> {
    match bytes {
        Some(bytes) => Some(bytes@),
        None => None,
    }
}

/// Sorts the members of a decoded `serde_json::Map` by kind, one member
/// each, in the map's own order.
#[verifier::external_body]
fn params_of(map: serde_json::Map<String, serde_json::Value>) -> (r: Params)
{
    let member = |(name, value)| Member {
        name,
        value: match value {
            serde_json::Value::String(text) => ParamValue::Text(text),
            serde_json::Value::Object(members) => ParamValue::Object(JsonObject { members }),
            _ => ParamValue::Other,
        },
    };
    Params { members: map.into_iter().map(member).collect() }
}

/// `serde_json::from_slice` into a `json_rpc_types::Request` whose parameters
/// are a JSON object: the request, or the decoder's error. Whether and what
/// request comes out depends on the bytes alone and is named
/// [`parsed_request`]. The decoder refuses a textual id of more than 36
/// bytes, so the id of a decoded request fits. The decoded object holds each
/// name once, so no name occurs twice among the parameters.
#[verifier::external_body]
pub(crate) fn parse(payload: &[u8]) -> (r: Result<Request, serde_json::Error>)
    ensures
        request_view(r) == parsed_request(payload@),
        r matches Ok(request) ==> id_fits(request@.id) && params_distinct(request@.params),
{
    let request: json_rpc_types::Request<serde_json::Map<String, serde_json::Value>> =
        serde_json::from_slice(payload)?;
    let id = request.id.map(|id| match id {
        json_rpc_types::Id::Num(num) => Id::Num(num),
        json_rpc_types::Id::Str(text) => Id::Str(text.as_str().to_owned()),
    });
    Ok(Request { method: request.method.as_str().to_owned(), params: request.params.map(params_of), id })
}

/// Builds the `serde_json::Value` of a result object: no member, or the one
/// that `payload` holds.
#[verifier::external_body]
fn payload_json(payload: &Payload) -> (r: serde_json::Value)
{
    let mut object = serde_json::Map::new();
    if let Payload::Member { name, value } = payload {
        let value = match value {
            Scalar::Number(num) => serde_json::Value::from(*num),
            Scalar::Text(text) => serde_json::Value::from(text.as_str()),
        };
        object.insert(name.clone(), value);
    }
    serde_json::Value::Object(object)
}

/// True when `text` holds no control character: no byte below
/// [`FIRST_PLAIN_BYTE`].
pub open spec fn is_plain(text: Seq<u8>) -> bool {
    forall|i: int| 0 <= i < text.len() ==> #[trigger] text[i] >= FIRST_PLAIN_BYTE
}

/// `serde_json::to_vec` on the `json_rpc_types::Response` made of the
/// arguments, with the standard message of the error's code. The result
/// depends on the arguments alone and is named [`encoded_response`]. A
/// textual id is copied into a buffer of 36 bytes, which it has to fit. The
/// serializer fails only where its writer does, and a vector takes every
/// byte, so there always is a text. Every control character of a string is
/// written as an escape, so the text holds none.
#[verifier::external_body]
fn encode(outcome: Result<&Payload, (i64, Option<&str>)>, id: &Option<Id>) -> (r: Option<Vec<u8>>)
    requires
        id_fits(id_view(*id)),
    ensures
        r is Some,
        r matches Some(text) ==> is_plain(text@),
        bytes_view(r) == encoded_response(
            match outcome {
                Ok(payload) => Ok(payload@),
                Err((code, Some(data))) => Err((code, Some(data@))),
                Err((code, None)) => Err((code, None)),
            },
            id_view(*id),
        ),
{
    let id = id.as_ref().map(|id| match id {
        Id::Num(num) => json_rpc_types::Id::Num(*num),
        Id::Str(text) => json_rpc_types::Id::Str(json_rpc_types::str_buf::StrBuf::from_str(text)),
    });
    let payload = outcome.map(payload_json).map_err(|(code, data)| {
        let mut error = json_rpc_types::Error::from_code(json_rpc_types::ErrorCode::from_code(code));
        error.data = data;
        error
    });
    let response: json_rpc_types::Response<serde_json::Value, &str> =
        json_rpc_types::Response { jsonrpc: json_rpc_types::Version::V2, payload, id };
    serde_json::to_vec(&response).ok()
}

/// The outcome of a response as the encoder takes it.
pub open spec fn outcome_of(response: ResponseView) -> Result<PayloadView, (i64, Option<Seq<char>>)> {
    match response.payload {
        Ok(payload) => Ok(payload),
        Err(error) => Err((error.code.spec_code() as i64, error.data)),
    }
}

/// The JSON text of `response`: none where its id does not fit the wire
/// format.
pub open spec fn response_text(response: ResponseView) -> Option<Seq<u8>> {
    if id_fits(response.id) {
        encoded_response(outcome_of(response), response.id)
    } else {
        None
    }
}

/// Encodes one response: there is a text exactly when the id of the
/// response fits the wire format.
pub fn encode_response(response: &Response) -> (r: Option<Vec<u8>>)
    ensures
        r is Some <==> id_fits(response@.id),
        bytes_view(r) == response_text(response@),
        r matches Some(text) ==> is_plain(text@),
{
    if !response.fits() {
        return None;
    }
    match &response.payload {
        Ok(payload) => encode(Ok(payload), &response.id),
        Err(error) => {
            let code: i64 = error.code.code();
            match &error.data {
                Some(data) => encode(Err((code, Some(data.as_str()))), &response.id),
                None => encode(Err((code, None)), &response.id),
            }
        },
    }
}

} // verus!
