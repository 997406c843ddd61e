//! The protocol's value model and envelope structures: dynamic values,
//! parameters, request ids, error objects, and the two response shapes.

use vstd::prelude::*;

verus! {

broadcast use vstd::std_specs::vec::group_vec_axioms;

/// Protocol version marker.  JSON-RPC 2.0 envelopes carry
/// `"jsonrpc": "2.0"`; 1.0-shaped traffic has no marker at all, which the
/// envelopes model as `Option::<Version>::None`.
#[derive(Clone, Copy, PartialEq, Eq, Structural)]
pub enum Version {
    /// JSON-RPC 2.0.
    V2,
}

/// The protocol's dynamic value: null, boolean, integer number, string,
/// ordered sequence of values, or string-keyed mapping.  Immutable once
/// constructed.
pub enum JsonValue {
    /// JSON `null`.
    Null,
    /// A boolean.
    Bool(bool),
    /// An integer number.
    Number(i64),
    /// A string.
    String(String),
    /// An ordered sequence of values.
    Array(Vec<JsonValue>),
    /// A mapping of string keys to values, in insertion order.
    Object(Vec<(String, JsonValue)>),
}

/// Mathematical model of a `JsonValue`.
#[verifier::ext_equal]
pub enum ValueView {
    /// JSON `null`.
    Null,
    /// A boolean.
    Bool(bool),
    /// An integer number.
    Number(i64),
    /// A string.
    Str(Seq<char>),
    /// An ordered sequence of values.
    Arr(Seq<ValueView>),
    /// A mapping of string keys to values, in insertion order.
    Obj(Seq<(Seq<char>, ValueView)>),
}

/// The model of a `JsonValue`, structurally.
pub open spec fn value_view(v: JsonValue) -> ValueView
    decreases v,
{
    match v {
        JsonValue::Null => ValueView::Null,
        JsonValue::Bool(b) => ValueView::Bool(b),
        JsonValue::Number(n) => ValueView::Number(n),
        JsonValue::String(s) => ValueView::Str(s@),
        JsonValue::Array(a) => ValueView::Arr(values_view(a@)),
        JsonValue::Object(m) => ValueView::Obj(entries_view(m@)),
    }
}

/// The models of a sequence of values, elementwise.
pub open spec fn values_view(s: Seq<JsonValue>) -> Seq<ValueView>
    decreases s,
{
    if s.len() == 0 {
        Seq::empty()
    } else {
        seq![value_view(s[0])] + values_view(s.subrange(1, s.len() as int))
    }
}

/// The models of a sequence of key-value entries, elementwise.
pub open spec fn entries_view(s: Seq<(String, JsonValue)>) -> Seq<(Seq<char>, ValueView)>
    decreases s,
{
    if s.len() == 0 {
        Seq::empty()
    } else {
        seq![(s[0].0@, value_view(s[0].1))] + entries_view(s.subrange(1, s.len() as int))
    }
}

impl DeepView for JsonValue {
    type V = ValueView;

    open spec fn deep_view(&self) -> ValueView {
        value_view(*self)
    }
}

/// `values_view` maps the sequence elementwise.
pub proof fn lemma_values_view_index(s: Seq<JsonValue>)
    ensures
        values_view(s).len() == s.len(),
        forall|i: int| 0 <= i < s.len() ==> values_view(s)[i] == value_view(s[i]),
    decreases s,
{
    if s.len() > 0 {
        lemma_values_view_index(s.subrange(1, s.len() as int));
    }
}

/// `entries_view` maps the sequence elementwise.
pub proof fn lemma_entries_view_index(s: Seq<(String, JsonValue)>)
    ensures
        entries_view(s).len() == s.len(),
        forall|i: int| 0 <= i < s.len() ==> entries_view(s)[i] == (s[i].0@, value_view(s[i].1)),
    decreases s,
{
    if s.len() > 0 {
        lemma_entries_view_index(s.subrange(1, s.len() as int));
    }
}

/// Taking the model commutes with taking a subrange.
pub proof fn lemma_values_view_subrange(s: Seq<JsonValue>, a: int, b: int)
    requires
        0 <= a <= b <= s.len(),
    ensures
        values_view(s.subrange(a, b)) == values_view(s).subrange(a, b),
{
    lemma_values_view_index(s);
    lemma_values_view_index(s.subrange(a, b));
    assert(values_view(s.subrange(a, b)) =~= values_view(s).subrange(a, b));
}

/// A request id: absent ids never reach this type (they make the request a
/// notification); a present id is null, a number, or a string.
pub enum Id {
    /// `"id": null`.
    Null,
    /// A numeric id.
    Num(i64),
    /// A string id.
    Str(String),
}

/// Mathematical model of an `Id`.
#[verifier::ext_equal]
pub enum IdView {
    /// `"id": null`.
    Null,
    /// A numeric id.
    Num(i64),
    /// A string id.
    Str(Seq<char>),
}

impl DeepView for Id {
    type V = IdView;

    open spec fn deep_view(&self) -> IdView {
        match self {
            Id::Null => IdView::Null,
            Id::Num(n) => IdView::Num(*n),
            Id::Str(s) => IdView::Str(s@),
        }
    }
}

/// Parameters handed to a capability: absent, positional, or named.
pub enum Params {
    /// No `params` member (or an explicit `null`).
    Absent,
    /// Positional parameters.
    Array(Vec<JsonValue>),
    /// Named parameters, in insertion order.
    Named(Vec<(String, JsonValue)>),
}

/// Mathematical model of `Params`.
#[verifier::ext_equal]
pub enum ParamsView {
    /// No parameters.
    Absent,
    /// Positional parameters.
    Arr(Seq<ValueView>),
    /// Named parameters.
    Obj(Seq<(Seq<char>, ValueView)>),
}

impl DeepView for Params {
    type V = ParamsView;

    open spec fn deep_view(&self) -> ParamsView {
        match self {
            Params::Absent => ParamsView::Absent,
            Params::Array(a) => ParamsView::Arr(values_view(a@)),
            Params::Named(m) => ParamsView::Obj(entries_view(m@)),
        }
    }
}

/// Which protocol shapes the engine accepts.
#[derive(Clone, Copy, PartialEq, Eq, Structural)]
pub enum Compatibility {
    /// Only 1.0-shaped requests are legal.
    V1,
    /// Only strict 2.0 requests are legal.
    V2,
    /// Both shapes are legal; each request answers in its own shape.
    Both,
}

impl Compatibility {
    /// Whether a request carrying the 2.0 marker is legal.
    pub open spec fn allows_v2(self) -> bool {
        self != Compatibility::V1
    }

    /// Whether a request without a version marker (1.0 shape) is legal.
    pub open spec fn allows_v1(self) -> bool {
        self != Compatibility::V2
    }
}

/// The protocol's error codes: the reserved ones, and `ServerError` for
/// every other integer.
#[derive(Clone, Copy, PartialEq, Eq, Structural)]
pub enum ErrorCode {
    /// Malformed request text (-32700).
    ParseError,
    /// A structurally illegal request envelope (-32600).
    InvalidRequest,
    /// No such procedure (-32601).
    MethodNotFound,
    /// A capability rejected its arguments (-32602).
    InvalidParams,
    /// An unstructured capability failure (-32603).
    InternalError,
    /// Any other integer code, chosen by the application.
    ServerError(i64),
}

impl ErrorCode {
    /// The integer that goes on the wire.
    pub open spec fn spec_code(self) -> i64 {
        match self {
            ErrorCode::ParseError => -32700i64,
            ErrorCode::InvalidRequest => -32600i64,
            ErrorCode::MethodNotFound => -32601i64,
            ErrorCode::InvalidParams => -32602i64,
            ErrorCode::InternalError => -32603i64,
            ErrorCode::ServerError(c) => c,
        }
    }

    /// The integer that goes on the wire.
    pub fn code(&self) -> (c: i64)
        ensures
            c == self.spec_code(),
    {
        match self {
            ErrorCode::ParseError => -32700,
            ErrorCode::InvalidRequest => -32600,
            ErrorCode::MethodNotFound => -32601,
            ErrorCode::InvalidParams => -32602,
            ErrorCode::InternalError => -32603,
            ErrorCode::ServerError(c) => *c,
        }
    }

    /// The standard message for the code.
    pub open spec fn spec_description(self) -> Seq<char> {
        match self {
            ErrorCode::ParseError => "Parse error"@,
            ErrorCode::InvalidRequest => "Invalid request"@,
            ErrorCode::MethodNotFound => "Method not found"@,
            ErrorCode::InvalidParams => "Invalid params"@,
            ErrorCode::InternalError => "Internal error"@,
            ErrorCode::ServerError(_) => "Server error"@,
        }
    }

    /// The standard message for the code.
    pub fn description(&self) -> (d: String)
        ensures
            d@ == self.spec_description(),
    {
        match self {
            ErrorCode::ParseError => String::from_str("Parse error"),
            ErrorCode::InvalidRequest => String::from_str("Invalid request"),
            ErrorCode::MethodNotFound => String::from_str("Method not found"),
            ErrorCode::InvalidParams => String::from_str("Invalid params"),
            ErrorCode::InternalError => String::from_str("Internal error"),
            ErrorCode::ServerError(_) => String::from_str("Server error"),
        }
    }
}

/// A protocol error object: integer code, message, optional data.
pub struct Error {
    /// The error code.
    pub code: ErrorCode,
    /// The human-readable message.
    pub message: String,
    /// Optional structured data.
    pub data: Option<JsonValue>,
}

/// Mathematical model of an `Error`.
#[verifier::ext_equal]
pub struct ErrorView {
    /// The error code.
    pub code: ErrorCode,
    /// The human-readable message.
    pub message: Seq<char>,
    /// Optional structured data.
    pub data: Option<ValueView>,
}

impl DeepView for Error {
    type V = ErrorView;

    open spec fn deep_view(&self) -> ErrorView {
        ErrorView {
            code: self.code,
            message: self.message@,
            data: match &self.data {
                Option::Some(d) => Option::Some(value_view(*d)),
                Option::None => Option::None,
            },
        }
    }
}

/// The model of the error carrying `code` and its standard message.
pub open spec fn standard_error(code: ErrorCode) -> ErrorView {
    ErrorView { code, message: code.spec_description(), data: Option::None }
}

impl Error {
    /// A fresh error for `code`, with the standard message and no data.
    pub fn new(code: ErrorCode) -> (e: Error)
        ensures
            e.deep_view() == standard_error(code),
    {
        Error { code, message: code.description(), data: Option::None }
    }

    /// The error answering malformed request text.
    pub fn parse_error() -> (e: Error)
        ensures
            e.deep_view() == standard_error(ErrorCode::ParseError),
    {
        Error::new(ErrorCode::ParseError)
    }

    /// The error answering a structurally illegal request envelope.
    pub fn invalid_request() -> (e: Error)
        ensures
            e.deep_view() == standard_error(ErrorCode::InvalidRequest),
    {
        Error::new(ErrorCode::InvalidRequest)
    }

    /// The error answering an unknown method name.
    pub fn method_not_found() -> (e: Error)
        ensures
            e.deep_view() == standard_error(ErrorCode::MethodNotFound),
    {
        Error::new(ErrorCode::MethodNotFound)
    }

    /// The error a capability raises against its arguments.
    pub fn invalid_params() -> (e: Error)
        ensures
            e.deep_view() == standard_error(ErrorCode::InvalidParams),
    {
        Error::new(ErrorCode::InvalidParams)
    }

    /// The error wrapping an unstructured capability failure.
    pub fn internal_error() -> (e: Error)
        ensures
            e.deep_view() == standard_error(ErrorCode::InternalError),
    {
        Error::new(ErrorCode::InternalError)
    }
}

/// One response entry: a success form or a failure form, each echoing the
/// originating request's id and protocol shape.
pub enum Output {
    /// The request's capability resolved to a value.
    Success {
        /// The shape the response is emitted in.
        jsonrpc: Option<Version>,
        /// The capability's result.
        result: JsonValue,
        /// The originating request's id.
        id: Id,
    },
    /// The request failed; exactly one of result/error is ever present.
    Failure {
        /// The shape the response is emitted in.
        jsonrpc: Option<Version>,
        /// What went wrong.
        error: Error,
        /// The originating request's id, or null where none was recovered.
        id: Id,
    },
}

/// Mathematical model of an `Output`.
#[verifier::ext_equal]
pub enum OutputView {
    /// The success form.
    Success {
        /// The shape the response is emitted in.
        jsonrpc: Option<Version>,
        /// The capability's result.
        result: ValueView,
        /// The originating request's id.
        id: IdView,
    },
    /// The failure form.
    Failure {
        /// The shape the response is emitted in.
        jsonrpc: Option<Version>,
        /// What went wrong.
        error: ErrorView,
        /// The originating request's id.
        id: IdView,
    },
}

impl DeepView for Output {
    type V = OutputView;

    open spec fn deep_view(&self) -> OutputView {
        match self {
            Output::Success { jsonrpc, result, id } => OutputView::Success {
                jsonrpc: *jsonrpc,
                result: value_view(*result),
                id: id.deep_view(),
            },
            Output::Failure { jsonrpc, error, id } => OutputView::Failure {
                jsonrpc: *jsonrpc,
                error: error.deep_view(),
                id: id.deep_view(),
            },
        }
    }
}

impl OutputView {
    /// The id the entry echoes.
    pub open spec fn spec_id(self) -> IdView {
        match self {
            OutputView::Success { id, .. } => id,
            OutputView::Failure { id, .. } => id,
        }
    }

    /// The shape the entry is emitted in.
    pub open spec fn spec_version(self) -> Option<Version> {
        match self {
            OutputView::Success { jsonrpc, .. } => jsonrpc,
            OutputView::Failure { jsonrpc, .. } => jsonrpc,
        }
    }
}

/// The failure entry carrying `code`'s standard error.
pub open spec fn failure_output(
    code: ErrorCode,
    jsonrpc: Option<Version>,
    id: IdView,
) -> OutputView {
    OutputView::Failure { jsonrpc, error: standard_error(code), id }
}

/// One validated request envelope, ready for dispatch.
pub enum Call {
    /// A call: a response entry is owed.
    MethodCall {
        /// The shape the request arrived in.
        jsonrpc: Option<Version>,
        /// The procedure to invoke.
        method: String,
        /// The arguments.
        params: Params,
        /// The id the response must echo.
        id: Id,
    },
    /// A notification: fire-and-forget, no response entry ever.
    Notification {
        /// The shape the request arrived in.
        jsonrpc: Option<Version>,
        /// The procedure to invoke.
        method: String,
        /// The arguments.
        params: Params,
    },
    /// A structurally illegal envelope.
    Invalid {
        /// Always null: the element's id is not trusted once the envelope
        /// is known to be malformed.
        id: Id,
    },
}

/// Mathematical model of a `Call`.
#[verifier::ext_equal]
pub enum CallView {
    /// A call: a response entry is owed.
    MethodCall {
        /// The shape the request arrived in.
        jsonrpc: Option<Version>,
        /// The procedure to invoke.
        method: Seq<char>,
        /// The arguments.
        params: ParamsView,
        /// The id the response must echo.
        id: IdView,
    },
    /// A notification: no response entry ever.
    Notification {
        /// The shape the request arrived in.
        jsonrpc: Option<Version>,
        /// The procedure to invoke.
        method: Seq<char>,
        /// The arguments.
        params: ParamsView,
    },
    /// A structurally illegal envelope.
    Invalid {
        /// The null id its error entry carries.
        id: IdView,
    },
}

impl DeepView for Call {
    type V = CallView;

    open spec fn deep_view(&self) -> CallView {
        match self {
            Call::MethodCall { jsonrpc, method, params, id } => CallView::MethodCall {
                jsonrpc: *jsonrpc,
                method: method@,
                params: params.deep_view(),
                id: id.deep_view(),
            },
            Call::Notification { jsonrpc, method, params } => CallView::Notification {
                jsonrpc: *jsonrpc,
                method: method@,
                params: params.deep_view(),
            },
            Call::Invalid { id } => CallView::Invalid { id: id.deep_view() },
        }
    }
}

} // verus!
