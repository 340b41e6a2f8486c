//! Wire constants and message types of the store's JSON-RPC 2.0 protocol.
//!
//! The types hold plain values, so that the rules of the protocol can be
//! stated over their views. A JSON object handed in as a value to store is
//! carried as it was decoded, and is known in the views by its compact text.
//! Turning messages into bytes and back is the codec's business.

use vstd::prelude::*;

use crate::json::{object_text, JsonObject};

verus! {

/// Byte that ends every frame on the wire (ASCII end-of-transmission).
pub const EOT: u8 = 0x04;

/// Longest textual request id, in bytes, that the wire format carries.
pub const ID_TEXT_MAX: usize = 36;

/// Name of the single member of a non-empty result object.
pub const RESULT: &'static str = "result";

/// Name of the parameter that holds the configuration key.
pub const ID: &'static str = "id";

/// Name of the parameter that holds the value to store.
pub const DATA: &'static str = "data";

/// Request identifier chosen by the client.
#[derive(Clone, Debug, PartialEq, Eq)]
pub enum Id {
    /// Numeric id.
    Num(u64),
    /// Textual id.
    Str(String),
}

/// Mathematical value of an [`Id`].
pub enum IdView {
    Num(u64),
    Str(Seq<char>),
}

impl View for Id {
    type V = IdView;

    open spec fn view(&self) -> IdView {
        match self {
            Id::Num(n) => IdView::Num(*n),
            Id::Str(s) => IdView::Str(s@),
        }
    }
}

/// View of an optional id.
pub open spec fn id_view(id: Option<Id>) -> Option<IdView> {
    match id {
        Some(id) => Some(id@),
        None => None,
    }
}

impl IdView {
    /// An id fits the wire format when its text is at most
    /// [`ID_TEXT_MAX`] bytes long in UTF-8.
    pub open spec fn fits(self) -> bool {
        match self {
            IdView::Num(_) => true,
            IdView::Str(text) => vstd::utf8::encode_utf8(text).len() <= ID_TEXT_MAX,
        }
    }
}

/// True when an optional id is absent or fits the wire format.
pub open spec fn id_fits(id: Option<IdView>) -> bool {
    match id {
        Some(id) => id.fits(),
        None => true,
    }
}

impl Id {
    /// Tests whether the id fits the wire format.
    pub fn fits(&self) -> (r: bool)
        ensures
            r == self@.fits(),
    {
        match self {
            Id::Num(_) => true,
            Id::Str(s) => s.as_str().as_bytes().len() <= ID_TEXT_MAX,
        }
    }
}

/// JSON-RPC error code.
#[derive(Clone, Copy, Debug, PartialEq, Eq, Structural)]
pub enum ErrorCode {
    /// Invalid JSON was received.
    ParseError,
    /// The JSON sent is not a valid request.
    InvalidRequest,
    /// The method does not exist.
    MethodNotFound,
    /// Invalid method parameters.
    InvalidParams,
    /// Internal JSON-RPC error.
    InternalError,
    /// Failure inside the server, told apart by a small number.
    ServerError(i64),
}

impl ErrorCode {
    /// The number that stands for the code on the wire.
    pub open spec fn spec_code(self) -> int {
        match self {
            ErrorCode::ParseError => -32700,
            ErrorCode::InvalidRequest => -32600,
            ErrorCode::MethodNotFound => -32601,
            ErrorCode::InvalidParams => -32602,
            ErrorCode::InternalError => -32603,
            ErrorCode::ServerError(code) => code as int,
        }
    }

    /// The number that stands for the code on the wire.
    pub fn code(&self) -> (r: i64)
        ensures
            r == self.spec_code(),
    {
        match self {
            ErrorCode::ParseError => -32700,
            ErrorCode::InvalidRequest => -32600,
            ErrorCode::MethodNotFound => -32601,
            ErrorCode::InvalidParams => -32602,
            ErrorCode::InternalError => -32603,
            ErrorCode::ServerError(code) => *code,
        }
    }
}

/// A JSON value that a result object can hold.
#[derive(Clone, Debug, PartialEq, Eq)]
pub enum Scalar {
    /// An unsigned number.
    Number(u64),
    /// A string.
    Text(String),
}

/// Mathematical value of a [`Scalar`].
pub enum ScalarView {
    Number(u64),
    Text(Seq<char>),
}

impl View for Scalar {
    type V = ScalarView;

    open spec fn view(&self) -> ScalarView {
        match self {
            Scalar::Number(n) => ScalarView::Number(*n),
            Scalar::Text(s) => ScalarView::Text(s@),
        }
    }
}

/// The object sent back as the result of a successful call: either empty,
/// or with one named member.
#[derive(Clone, Debug, PartialEq, Eq)]
pub enum Payload {
    /// The empty object.
    Empty,
    /// An object with the single member `name`.
    Member { name: String, value: Scalar },
}

/// Mathematical value of a [`Payload`].
pub enum PayloadView {
    Empty,
    Member { name: Seq<char>, value: ScalarView },
}

impl View for Payload {
    type V = PayloadView;

    open spec fn view(&self) -> PayloadView {
        match self {
            Payload::Empty => PayloadView::Empty,
            Payload::Member { name, value } => PayloadView::Member { name: name@, value: value@ },
        }
    }
}

/// The error object of a failed call. Its message on the wire is the
/// standard text of the code.
#[derive(Clone, Debug, PartialEq, Eq)]
pub struct RpcError {
    /// What went wrong.
    pub code: ErrorCode,
    /// Detail for the caller, if any.
    pub data: Option<String>,
}

/// Mathematical value of an [`RpcError`].
pub struct RpcErrorView {
    pub code: ErrorCode,
    pub data: Option<Seq<char>>,
}

impl View for RpcError {
    type V = RpcErrorView;

    open spec fn view(&self) -> RpcErrorView {
        RpcErrorView {
            code: self.code,
            data: match self.data {
                Some(text) => Some(text@),
                None => None,
            },
        }
    }
}

/// One response: the outcome of a call and the id of the request it answers.
#[derive(Debug, PartialEq, Eq)]
pub struct Response {
    /// Result object or error.
    pub payload: Result<Payload, RpcError>,
    /// Id of the request.
    pub id: Option<Id>,
}

/// Mathematical value of a [`Response`].
pub struct ResponseView {
    pub payload: Result<PayloadView, RpcErrorView>,
    pub id: Option<IdView>,
}

impl View for Response {
    type V = ResponseView;

    open spec fn view(&self) -> ResponseView {
        ResponseView {
            payload: match self.payload {
                Ok(payload) => Ok(payload@),
                Err(error) => Err(error@),
            },
            id: id_view(self.id),
        }
    }
}

impl Response {
    /// A successful response.
    pub fn result(payload: Payload, id: Option<Id>) -> (r: Response)
        ensures
            r@ == (ResponseView { payload: Ok(payload@), id: id_view(id) }),
            r.id == id,
    {
        Response { payload: Ok(payload), id }
    }

    /// A failed response.
    pub fn error(error: RpcError, id: Option<Id>) -> (r: Response)
        ensures
            r@ == (ResponseView { payload: Err(error@), id: id_view(id) }),
            r.id == id,
    {
        Response { payload: Err(error), id }
    }

    /// Tests whether the response can be put on the wire: whether its id
    /// fits.
    pub fn fits(&self) -> (r: bool)
        ensures
            r == id_fits(self@.id),
    {
        match &self.id {
            Some(id) => id.fits(),
            None => true,
        }
    }
}

/// What a request parameter holds, as far as the store tells values apart.
#[derive(Debug, PartialEq)]
pub enum ParamValue {
    /// A JSON string.
    Text(String),
    /// A JSON object.
    Object(JsonObject),
    /// Any other JSON value.
    Other,
}

/// Mathematical value of a [`ParamValue`]. An object is known by the compact
/// JSON text that stands for it, which is missing where the object cannot be
/// serialized.
pub enum ParamValueView {
    Text(Seq<char>),
    Object(Option<Seq<char>>),
    Other,
}

impl View for ParamValue {
    type V = ParamValueView;

    open spec fn view(&self) -> ParamValueView {
        match self {
            ParamValue::Text(s) => ParamValueView::Text(s@),
            ParamValue::Object(o) => ParamValueView::Object(object_text(o.members)),
            ParamValue::Other => ParamValueView::Other,
        }
    }
}

/// One named parameter of a request.
#[derive(Debug, PartialEq)]
pub struct Member {
    /// The parameter's name.
    pub name: String,
    /// Its value.
    pub value: ParamValue,
}

/// Mathematical value of a [`Member`].
pub struct MemberView {
    pub name: Seq<char>,
    pub value: ParamValueView,
}

impl View for Member {
    type V = MemberView;

    open spec fn view(&self) -> MemberView {
        MemberView { name: self.name@, value: self.value@ }
    }
}

/// The parameters of a request: named values. Where a name occurs more than
/// once, its first member counts.
#[derive(Debug, PartialEq)]
pub struct Params {
    /// The members, in the order in which they were decoded.
    pub members: Vec<Member>,
}

/// Mathematical value of [`Params`]: the members in order.
pub type ParamsView = Seq<MemberView>;

impl View for Params {
    type V = ParamsView;

    open spec fn view(&self) -> ParamsView {
        self.members@.map_values(|member: Member| member@)
    }
}

/// The value of the first member of `members` at or after `from` that is
/// called `name`.
pub open spec fn lookup_from(members: ParamsView, name: Seq<char>, from: int) -> Option<
    ParamValueView,
>
    decreases members.len() - from,
{
    if from < 0 || from >= members.len() {
        None
    } else if members[from].name == name {
        Some(members[from].value)
    } else {
        lookup_from(members, name, from + 1)
    }
}

/// The value of the parameter called `name`, if there is one.
pub open spec fn lookup(members: ParamsView, name: Seq<char>) -> Option<ParamValueView> {
    lookup_from(members, name, 0)
}

/// True when no name occurs twice among `members`, as in the object that
/// parameters are decoded from.
pub open spec fn distinct_names(members: ParamsView) -> bool {
    forall|i: int, j: int|
        0 <= i < j < members.len() ==> (#[trigger] members[i]).name != (#[trigger] members[j]).name
}

/// True when optional parameters are absent or hold no name twice.
pub open spec fn params_distinct(params: Option<ParamsView>) -> bool {
    match params {
        Some(members) => distinct_names(members),
        None => true,
    }
}

/// The members before `at` do not hide the member at `at` from a lookup that
/// starts at `from`, where no name occurs twice.
proof fn lemma_lookup_reaches(members: ParamsView, at: int, from: int)
    requires
        distinct_names(members),
        0 <= from <= at < members.len(),
    ensures
        lookup_from(members, members[at].name, from) == Some(members[at].value),
    decreases at - from,
{
    if from < at {
        lemma_lookup_reaches(members, at, from + 1);
    }
}

/// Where no name occurs twice, the order of the members does not matter to
/// a lookup: it finds the one member of the name, wherever it stands.
pub proof fn law_lookup_finds_the_member(members: ParamsView, at: int)
    requires
        distinct_names(members),
        0 <= at < members.len(),
    ensures
        lookup(members, members[at].name) == Some(members[at].value),
{
    lemma_lookup_reaches(members, at, 0);
}

impl Params {
    /// Finds the parameter called `name`.
    pub fn get(&self, name: &str) -> (r: Option<&ParamValue>)
        ensures
            match r {
                Some(value) => lookup(self@, name@) == Some(value@),
                None => lookup(self@, name@) is None,
            },
    {
        let wanted: String = name.to_owned();
        let mut i: usize = 0;
        while i < self.members.len()
            invariant
                i <= self.members.len(),
                wanted@ == name@,
                lookup_from(self@, name@, 0) == lookup_from(self@, name@, i as int),
            decreases self.members.len() - i,
        {
            if self.members[i].name == wanted {
                return Some(&self.members[i].value);
            }
            i += 1;
        }
        None
    }
}

/// One request. A request without an id is a notification, to which no
/// response is sent.
#[derive(Debug, PartialEq)]
pub struct Request {
    /// Name of the method to call.
    pub method: String,
    /// The call's parameters, if it has any.
    pub params: Option<Params>,
    /// The id under which the response is expected.
    pub id: Option<Id>,
}

/// Mathematical value of a [`Request`].
pub struct RequestView {
    pub method: Seq<char>,
    pub params: Option<ParamsView>,
    pub id: Option<IdView>,
}

impl View for Request {
    type V = RequestView;

    open spec fn view(&self) -> RequestView {
        RequestView {
            method: self.method@,
            params: match self.params {
                Some(params) => Some(params@),
                None => None,
            },
            id: id_view(self.id),
        }
    }
}

impl Request {
    /// True when the request asks for no response.
    pub fn is_notification(&self) -> (r: bool)
        ensures
            r == (self.id is None),
    {
        self.id.is_none()
    }
}

} // verus!
