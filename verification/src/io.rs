//! The dispatch engine: the procedure registry, request validation, single
//! and batch handling, middleware composition, and response aggregation.

use vstd::prelude::*;
use std::marker::PhantomData;
use crate::calls::{
    Metadata, NoMeta, ProcedureView, RemoteProcedure, RpcMethod, RpcMethodSimple, RpcNotification,
    RpcNotificationSimple, SimpleMethod, SimpleNotification,
};
use crate::json::{decode_text, encode_value, json_decoded, json_encoded};
use crate::middleware::{Middleware, MiddlewareAction};
use crate::types::{
    Call, CallView, Compatibility, Error, ErrorCode, Id, IdView, JsonValue, Output, OutputView,
    Params, ParamsView, ValueView, Version, failure_output,
};

verus! {

broadcast use vstd::std_specs::vec::group_vec_axioms;

/// A registry snapshot as contracts see it: the names in registration
/// order, each with the kind of its entry.
pub type RegistryView = Seq<(Seq<char>, ProcedureView)>;

/// The index of the entry registered last under `name`, if any: a later
/// registration of a name always shadows an earlier one.
pub open spec fn lookup(reg: RegistryView, name: Seq<char>) -> Option<int>
    decreases reg.len(),
{
    if reg.len() == 0 {
        Option::None
    } else if reg[reg.len() - 1].0 == name {
        Option::Some(reg.len() - 1)
    } else {
        lookup(reg.drop_last(), name)
    }
}

/// The entry a request for `name` dispatches to: the entry `name` names,
/// or, where that entry is an alias, the non-alias entry its target names.
/// An alias whose target is missing or is itself an alias resolves to
/// nothing — alias chains are cut at one hop, so a cycle fails
/// deterministically instead of looping.
pub open spec fn resolve(reg: RegistryView, name: Seq<char>) -> Option<int> {
    match lookup(reg, name) {
        Option::None => Option::None,
        Option::Some(i) => match reg[i].1 {
            ProcedureView::Alias(target) => match lookup(reg, target) {
                Option::None => Option::None,
                Option::Some(j) => if reg[j].1 is Alias {
                    Option::None
                } else {
                    Option::Some(j)
                },
            },
            _ => Option::Some(i),
        },
    }
}

/// The value of the entry written last under `key` in a decoded object
/// (decoding keeps one entry per key, the last one in the document).
pub open spec fn obj_lookup(fields: Seq<(Seq<char>, ValueView)>, key: Seq<char>) -> Option<
    ValueView,
>
    decreases fields.len(),
{
    if fields.len() == 0 {
        Option::None
    } else if fields[fields.len() - 1].0 == key {
        Option::Some(fields[fields.len() - 1].1)
    } else {
        obj_lookup(fields.drop_last(), key)
    }
}

/// `a`, unless it is absent, in which case `b`.
pub open spec fn opt_or(a: Option<ValueView>, b: Option<ValueView>) -> Option<ValueView> {
    if a is Some {
        a
    } else {
        b
    }
}

/// The model of an optional value, elementwise.
pub open spec fn opt_value_view(o: Option<JsonValue>) -> Option<ValueView> {
    match o {
        Option::Some(v) => Option::Some(crate::types::value_view(v)),
        Option::None => Option::None,
    }
}

/// Dropping the last entry commutes with taking the model.
proof fn lemma_entries_view_drop_last(s: Seq<(String, JsonValue)>)
    requires
        s.len() > 0,
    ensures
        crate::types::entries_view(s.drop_last()) == crate::types::entries_view(s).drop_last(),
{
    crate::types::lemma_entries_view_index(s);
    crate::types::lemma_entries_view_index(s.drop_last());
    assert(crate::types::entries_view(s.drop_last()) =~= crate::types::entries_view(
        s,
    ).drop_last());
}

/// Splits a decoded request object into its four protocol members, in one
/// pass: `(jsonrpc, method, params, id)`, each the entry written last under
/// that key.
fn split_request_fields(fields: Vec<(String, JsonValue)>) -> (r: (
    Option<JsonValue>,
    Option<JsonValue>,
    Option<JsonValue>,
    Option<JsonValue>,
))
    ensures
        opt_value_view(r.0) == obj_lookup(crate::types::entries_view(fields@), "jsonrpc"@),
        opt_value_view(r.1) == obj_lookup(crate::types::entries_view(fields@), "method"@),
        opt_value_view(r.2) == obj_lookup(crate::types::entries_view(fields@), "params"@),
        opt_value_view(r.3) == obj_lookup(crate::types::entries_view(fields@), "id"@),
{
    proof {
        reveal_strlit("jsonrpc");
        reveal_strlit("method");
        reveal_strlit("params");
        reveal_strlit("id");
        assert(("jsonrpc"@).len() == 7);
        assert(("method"@).len() == 6);
        assert(("params"@).len() == 6);
        assert(("id"@).len() == 2);
        assert(("method"@)[0] == 'm');
        assert(("params"@)[0] == 'p');
    }
    let ghost full = crate::types::entries_view(fields@);
    let key_jsonrpc = String::from_str("jsonrpc");
    let key_method = String::from_str("method");
    let key_params = String::from_str("params");
    let key_id = String::from_str("id");
    let mut rest = fields;
    let mut f_jsonrpc: Option<JsonValue> = None;
    let mut f_method: Option<JsonValue> = None;
    let mut f_params: Option<JsonValue> = None;
    let mut f_id: Option<JsonValue> = None;
    while rest.len() > 0
        invariant
            key_jsonrpc@ == "jsonrpc"@,
            key_method@ == "method"@,
            key_params@ == "params"@,
            key_id@ == "id"@,
            key_jsonrpc@ != key_method@,
            key_jsonrpc@ != key_params@,
            key_jsonrpc@ != key_id@,
            key_method@ != key_params@,
            key_method@ != key_id@,
            key_params@ != key_id@,
            opt_or(
                opt_value_view(f_jsonrpc),
                obj_lookup(crate::types::entries_view(rest@), "jsonrpc"@),
            ) == obj_lookup(full, "jsonrpc"@),
            opt_or(
                opt_value_view(f_method),
                obj_lookup(crate::types::entries_view(rest@), "method"@),
            ) == obj_lookup(full, "method"@),
            opt_or(
                opt_value_view(f_params),
                obj_lookup(crate::types::entries_view(rest@), "params"@),
            ) == obj_lookup(full, "params"@),
            opt_or(
                opt_value_view(f_id),
                obj_lookup(crate::types::entries_view(rest@), "id"@),
            ) == obj_lookup(full, "id"@),
        decreases rest@.len(),
    {
        proof {
            crate::types::lemma_entries_view_index(rest@);
            lemma_entries_view_drop_last(rest@);
        }
        if let Some((k, v)) = rest.pop() {
            let is_jsonrpc = k == key_jsonrpc;
            let is_method = k == key_method;
            let is_params = k == key_params;
            let is_id = k == key_id;
            if is_jsonrpc && f_jsonrpc.is_none() {
                f_jsonrpc = Some(v);
            } else if is_method && f_method.is_none() {
                f_method = Some(v);
            } else if is_params && f_params.is_none() {
                f_params = Some(v);
            } else if is_id && f_id.is_none() {
                f_id = Some(v);
            }
        }
    }
    proof {
        assert(crate::types::entries_view(rest@) =~= Seq::<(Seq<char>, ValueView)>::empty());
    }
    (f_jsonrpc, f_method, f_params, f_id)
}

/// The validated envelope for a request whose four protocol members are as
/// given.  The rules: the version marker must be the string "2.0" (then the
/// request is 2.0-shaped) or absent (1.0-shaped), and that shape must be
/// allowed by the compatibility policy; the method must be a string; params
/// must be absent, null (both mean "no parameters"), positional, or — in
/// 2.0 only — named; a 2.0 request without an id is a notification and one
/// with an id (null included) is a call; a 1.0 request must carry an id,
/// null for a notification, a number or string for a call.  Everything else
/// is an invalid envelope, answered with a null id.
pub open spec fn spec_validate_parts(
    ver: Option<ValueView>,
    method: Option<ValueView>,
    params: Option<ValueView>,
    id: Option<ValueView>,
    compat: Compatibility,
) -> CallView {
    let invalid = CallView::Invalid { id: IdView::Null };
    let version_ok = match ver {
        Option::None => compat.allows_v1(),
        Option::Some(ValueView::Str(s)) => s == "2.0"@ && compat.allows_v2(),
        _ => false,
    };
    let jsonrpc: Option<Version> = if ver is None {
        Option::None
    } else {
        Option::Some(Version::V2)
    };
    if !version_ok {
        invalid
    } else {
        match method {
            Option::Some(ValueView::Str(m)) => {
                let p: Option<ParamsView> = match params {
                    Option::None => Option::Some(ParamsView::Absent),
                    Option::Some(ValueView::Null) => Option::Some(ParamsView::Absent),
                    Option::Some(ValueView::Arr(a)) => Option::Some(ParamsView::Arr(a)),
                    Option::Some(ValueView::Obj(o)) => if jsonrpc is Some {
                        Option::Some(ParamsView::Obj(o))
                    } else {
                        Option::None
                    },
                    _ => Option::None,
                };
                match p {
                    Option::None => invalid,
                    Option::Some(pv) => if jsonrpc is Some {
                        match id {
                            Option::None => CallView::Notification { jsonrpc, method: m, params: pv },
                            Option::Some(ValueView::Null) => CallView::MethodCall {
                                jsonrpc,
                                method: m,
                                params: pv,
                                id: IdView::Null,
                            },
                            Option::Some(ValueView::Number(n)) => CallView::MethodCall {
                                jsonrpc,
                                method: m,
                                params: pv,
                                id: IdView::Num(n),
                            },
                            Option::Some(ValueView::Str(s)) => CallView::MethodCall {
                                jsonrpc,
                                method: m,
                                params: pv,
                                id: IdView::Str(s),
                            },
                            _ => invalid,
                        }
                    } else {
                        match id {
                            Option::None => invalid,
                            Option::Some(ValueView::Null) => CallView::Notification {
                                jsonrpc,
                                method: m,
                                params: pv,
                            },
                            Option::Some(ValueView::Number(n)) => CallView::MethodCall {
                                jsonrpc,
                                method: m,
                                params: pv,
                                id: IdView::Num(n),
                            },
                            Option::Some(ValueView::Str(s)) => CallView::MethodCall {
                                jsonrpc,
                                method: m,
                                params: pv,
                                id: IdView::Str(s),
                            },
                            _ => invalid,
                        }
                    },
                }
            },
            _ => invalid,
        }
    }
}

/// The validated envelope for one decoded element: a non-object element is
/// an invalid envelope; an object is validated by its protocol members.
pub open spec fn spec_validate(v: ValueView, compat: Compatibility) -> CallView {
    match v {
        ValueView::Obj(fields) => spec_validate_parts(
            obj_lookup(fields, "jsonrpc"@),
            obj_lookup(fields, "method"@),
            obj_lookup(fields, "params"@),
            obj_lookup(fields, "id"@),
            compat,
        ),
        _ => CallView::Invalid { id: IdView::Null },
    }
}

/// Validates one decoded element into a dispatchable envelope.
pub fn validate_request(v: JsonValue, compat: Compatibility) -> (c: Call)
    ensures
        c.deep_view() == spec_validate(crate::types::value_view(v), compat),
{
    let invalid = || -> Call { Call::Invalid { id: Id::Null } };
    match v {
        JsonValue::Object(fields) => {
            let (f_ver, f_method, f_params, f_id) = split_request_fields(fields);
            let jsonrpc: Option<Version>;
            match &f_ver {
                Option::None => {
                    if compat == Compatibility::V2 {
                        return Call::Invalid { id: Id::Null };
                    }
                    jsonrpc = None;
                },
                Option::Some(JsonValue::String(s)) => {
                    let two = String::from_str("2.0");
                    if !(*s == two) || compat == Compatibility::V1 {
                        return Call::Invalid { id: Id::Null };
                    }
                    jsonrpc = Some(Version::V2);
                },
                _ => {
                    return Call::Invalid { id: Id::Null };
                },
            }
            let method: String = match f_method {
                Option::Some(JsonValue::String(m)) => m,
                _ => {
                    return Call::Invalid { id: Id::Null };
                },
            };
            let params: Params = match f_params {
                Option::None => Params::Absent,
                Option::Some(JsonValue::Null) => Params::Absent,
                Option::Some(JsonValue::Array(a)) => Params::Array(a),
                Option::Some(JsonValue::Object(o)) => {
                    if jsonrpc.is_none() {
                        return Call::Invalid { id: Id::Null };
                    }
                    Params::Named(o)
                },
                _ => {
                    return Call::Invalid { id: Id::Null };
                },
            };
            if jsonrpc.is_some() {
                match f_id {
                    Option::None => Call::Notification { jsonrpc, method, params },
                    Option::Some(JsonValue::Null) => Call::MethodCall {
                        jsonrpc,
                        method,
                        params,
                        id: Id::Null,
                    },
                    Option::Some(JsonValue::Number(n)) => Call::MethodCall {
                        jsonrpc,
                        method,
                        params,
                        id: Id::Num(n),
                    },
                    Option::Some(JsonValue::String(s)) => Call::MethodCall {
                        jsonrpc,
                        method,
                        params,
                        id: Id::Str(s),
                    },
                    _ => Call::Invalid { id: Id::Null },
                }
            } else {
                match f_id {
                    Option::None => Call::Invalid { id: Id::Null },
                    Option::Some(JsonValue::Null) => Call::Notification { jsonrpc, method, params },
                    Option::Some(JsonValue::Number(n)) => Call::MethodCall {
                        jsonrpc,
                        method,
                        params,
                        id: Id::Num(n),
                    },
                    Option::Some(JsonValue::String(s)) => Call::MethodCall {
                        jsonrpc,
                        method,
                        params,
                        id: Id::Str(s),
                    },
                    _ => Call::Invalid { id: Id::Null },
                }
            }
        },
        _ => Call::Invalid { id: Id::Null },
    }
}

/// A request id on the wire.
pub open spec fn id_view_value(id: IdView) -> ValueView {
    match id {
        IdView::Null => ValueView::Null,
        IdView::Num(n) => ValueView::Number(n),
        IdView::Str(s) => ValueView::Str(s),
    }
}

/// Turns an id into its wire value.
pub fn id_value(id: Id) -> (v: JsonValue)
    ensures
        crate::types::value_view(v) == id_view_value(id.deep_view()),
{
    match id {
        Id::Null => JsonValue::Null,
        Id::Num(n) => JsonValue::Number(n),
        Id::Str(s) => JsonValue::String(s),
    }
}

/// An error object on the wire: its code, its message, and its data where
/// there is any.
pub open spec fn error_view_value(e: crate::types::ErrorView) -> ValueView {
    match e.data {
        Option::None => ValueView::Obj(
            seq![
                ("code"@, ValueView::Number(e.code.spec_code())),
                ("message"@, ValueView::Str(e.message)),
            ],
        ),
        Option::Some(d) => ValueView::Obj(
            seq![
                ("code"@, ValueView::Number(e.code.spec_code())),
                ("message"@, ValueView::Str(e.message)),
                ("data"@, d),
            ],
        ),
    }
}

/// Turns an error into its wire value.
pub fn error_value(e: Error) -> (v: JsonValue)
    ensures
        crate::types::value_view(v) == error_view_value(e.deep_view()),
{
    let code = e.code.code();
    let mut fields: Vec<(String, JsonValue)> = Vec::new();
    fields.push((String::from_str("code"), JsonValue::Number(code)));
    fields.push((String::from_str("message"), JsonValue::String(e.message)));
    match e.data {
        Option::Some(d) => fields.push((String::from_str("data"), d)),
        Option::None => {},
    }
    let v = JsonValue::Object(fields);
    proof {
        crate::types::lemma_entries_view_index(fields@);
        match e.deep_view().data {
            Option::None => {
                assert(crate::types::entries_view(fields@) =~= seq![
                    ("code"@, ValueView::Number(e.code.spec_code())),
                    ("message"@, ValueView::Str(e.message@)),
                ]);
            },
            Option::Some(d) => {
                assert(crate::types::entries_view(fields@) =~= seq![
                    ("code"@, ValueView::Number(e.code.spec_code())),
                    ("message"@, ValueView::Str(e.message@)),
                    ("data"@, d),
                ]);
            },
        }
    }
    v
}

/// A response entry on the wire.  A 2.0 entry carries the version marker
/// and exactly one of result/error; a 1.0 entry carries both members, the
/// unused one null, and no marker.
pub open spec fn output_view_value(o: OutputView) -> ValueView {
    match o {
        OutputView::Success { jsonrpc, result, id } => match jsonrpc {
            Option::Some(_) => ValueView::Obj(
                seq![
                    ("jsonrpc"@, ValueView::Str("2.0"@)),
                    ("result"@, result),
                    ("id"@, id_view_value(id)),
                ],
            ),
            Option::None => ValueView::Obj(
                seq![
                    ("result"@, result),
                    ("error"@, ValueView::Null),
                    ("id"@, id_view_value(id)),
                ],
            ),
        },
        OutputView::Failure { jsonrpc, error, id } => match jsonrpc {
            Option::Some(_) => ValueView::Obj(
                seq![
                    ("jsonrpc"@, ValueView::Str("2.0"@)),
                    ("error"@, error_view_value(error)),
                    ("id"@, id_view_value(id)),
                ],
            ),
            Option::None => ValueView::Obj(
                seq![
                    ("result"@, ValueView::Null),
                    ("error"@, error_view_value(error)),
                    ("id"@, id_view_value(id)),
                ],
            ),
        },
    }
}

/// Turns a response entry into its wire value.
pub fn output_value(o: Output) -> (v: JsonValue)
    ensures
        crate::types::value_view(v) == output_view_value(o.deep_view()),
{
    let mut fields: Vec<(String, JsonValue)> = Vec::new();
    match o {
        Output::Success { jsonrpc, result, id } => {
            match jsonrpc {
                Option::Some(_) => {
                    fields.push(
                        (String::from_str("jsonrpc"), JsonValue::String(String::from_str("2.0"))),
                    );
                    fields.push((String::from_str("result"), result));
                    fields.push((String::from_str("id"), id_value(id)));
                },
                Option::None => {
                    fields.push((String::from_str("result"), result));
                    fields.push((String::from_str("error"), JsonValue::Null));
                    fields.push((String::from_str("id"), id_value(id)));
                },
            }
        },
        Output::Failure { jsonrpc, error, id } => {
            match jsonrpc {
                Option::Some(_) => {
                    fields.push(
                        (String::from_str("jsonrpc"), JsonValue::String(String::from_str("2.0"))),
                    );
                    fields.push((String::from_str("error"), error_value(error)));
                    fields.push((String::from_str("id"), id_value(id)));
                },
                Option::None => {
                    fields.push((String::from_str("result"), JsonValue::Null));
                    fields.push((String::from_str("error"), error_value(error)));
                    fields.push((String::from_str("id"), id_value(id)));
                },
            }
        },
    }
    let v = JsonValue::Object(fields);
    proof {
        crate::types::lemma_entries_view_index(fields@);
        let ghost ev = crate::types::entries_view(fields@);
        let ghost ov = o.deep_view();
        match ov {
            OutputView::Success { jsonrpc: Option::Some(_), result, id } => {
                assert(ev =~~= seq![
                    ("jsonrpc"@, ValueView::Str("2.0"@)),
                    ("result"@, result),
                    ("id"@, id_view_value(id)),
                ]);
            },
            OutputView::Success { jsonrpc: Option::None, result, id } => {
                assert(ev =~~= seq![
                    ("result"@, result),
                    ("error"@, ValueView::Null),
                    ("id"@, id_view_value(id)),
                ]);
            },
            OutputView::Failure { jsonrpc: Option::Some(_), error, id } => {
                assert(ev =~~= seq![
                    ("jsonrpc"@, ValueView::Str("2.0"@)),
                    ("error"@, error_view_value(error)),
                    ("id"@, id_view_value(id)),
                ]);
            },
            OutputView::Failure { jsonrpc: Option::None, error, id } => {
                assert(ev =~~= seq![
                    ("result"@, ValueView::Null),
                    ("error"@, error_view_value(error)),
                    ("id"@, id_view_value(id)),
                ]);
            },
        }
        assert(crate::types::value_view(v) =~~= output_view_value(o.deep_view()));
    }
    v
}

/// The model of an optional response entry, elementwise.
pub open spec fn opt_output_view(r: Option<Output>) -> Option<OutputView> {
    match r {
        Option::Some(o) => Option::Some(o.deep_view()),
        Option::None => Option::None,
    }
}

/// Whether a dispatched envelope owes a response entry: notifications never
/// do, everything else always does.
pub open spec fn yields_output(c: CallView) -> bool {
    !(c is Notification)
}

/// What the engine guarantees of the response entry for one envelope.
/// A notification never produces an entry, whatever middleware or the
/// capability do.  An invalid envelope produces exactly the InvalidRequest
/// failure, echoing its (null) id.  A call always produces an entry; with
/// an empty middleware chain the entry is the engine's own: exactly the
/// MethodNotFound failure where the name resolves to nothing (or to a
/// notification), and otherwise an entry echoing the call's id and shape
/// whose result came from the resolved method.
pub open spec fn call_output_ok(
    reg: RegistryView,
    nomid: bool,
    c: CallView,
    r: Option<OutputView>,
) -> bool {
    match c {
        CallView::Notification { .. } => r is None,
        CallView::Invalid { id } => r == Option::Some(
            failure_output(ErrorCode::InvalidRequest, Option::Some(Version::V2), id),
        ),
        CallView::MethodCall { jsonrpc, method, params, id } => {
            &&& r is Some
            &&& (nomid ==> match resolve(reg, method) {
                Option::None => r == Option::Some(
                    failure_output(ErrorCode::MethodNotFound, jsonrpc, id),
                ),
                Option::Some(j) => match reg[j].1 {
                    ProcedureView::Method => r matches Option::Some(o) && o.spec_id() == id
                        && o.spec_version() == jsonrpc,
                    ProcedureView::Notification => r == Option::Some(
                        failure_output(ErrorCode::MethodNotFound, jsonrpc, id),
                    ),
                    ProcedureView::Alias(_) => true,
                },
            })
        },
    }
}

/// The request-dispatch engine: a registry of named procedures, a
/// middleware chain, and the compatibility policy, shared read-only once
/// registration is done.
pub struct MetaIoHandler<M: Metadata, F: RpcMethod<M>, N: RpcNotification<M>, W: Middleware<M>> {
    compatibility: Compatibility,
    middlewares: Vec<W>,
    entries: Vec<(String, RemoteProcedure<F, N>)>,
    _meta: PhantomData<M>,
}

impl<M: Metadata, F: RpcMethod<M>, N: RpcNotification<M>, W: Middleware<M>> MetaIoHandler<
    M,
    F,
    N,
    W,
> {
    /// The registry as contracts see it.
    pub closed spec fn registry(&self) -> RegistryView {
        Seq::new(
            self.entries@.len(),
            |i: int| (self.entries@[i].0@, self.entries@[i].1.deep_view()),
        )
    }

    /// The compatibility policy the handler validates against.
    pub closed spec fn spec_compatibility(&self) -> Compatibility {
        self.compatibility
    }

    /// How many middlewares are in the chain.
    pub closed spec fn middleware_count(&self) -> nat {
        self.middlewares@.len()
    }

    /// Whether the middleware chain is empty, in which case every response
    /// entry is the engine's own.
    pub open spec fn no_middleware(&self) -> bool {
        self.middleware_count() == 0
    }

    /// A fresh handler with the given compatibility policy, no procedures
    /// and no middleware.
    pub fn with_compatibility(compatibility: Compatibility) -> (h: Self)
        ensures
            h.registry() == Seq::<(Seq<char>, ProcedureView)>::empty(),
            h.spec_compatibility() == compatibility,
            h.no_middleware(),
    {
        let h = MetaIoHandler {
            compatibility,
            middlewares: Vec::new(),
            entries: Vec::new(),
            _meta: PhantomData,
        };
        proof {
            assert(h.registry() =~= Seq::<(Seq<char>, ProcedureView)>::empty());
        }
        h
    }

    /// A fresh handler validating strict 2.0 requests.
    pub fn new() -> (h: Self)
        ensures
            h.registry() == Seq::<(Seq<char>, ProcedureView)>::empty(),
            h.spec_compatibility() == Compatibility::V2,
            h.no_middleware(),
    {
        Self::with_compatibility(Compatibility::V2)
    }

    /// Appends a middleware to the chain; middleware registered first is
    /// consulted first (outermost).
    pub fn add_middleware(&mut self, middleware: W)
        ensures
            final(self).registry() == old(self).registry(),
            final(self).spec_compatibility() == old(self).spec_compatibility(),
            final(self).middleware_count() == old(self).middleware_count() + 1,
    {
        self.middlewares.push(middleware);
    }

    /// Registers `procedure` under `name`, shadowing any earlier entry of
    /// that name.
    pub fn register(&mut self, name: &str, procedure: RemoteProcedure<F, N>)
        ensures
            final(self).registry() == old(self).registry().push(
                (name@, procedure.deep_view()),
            ),
            final(self).spec_compatibility() == old(self).spec_compatibility(),
            final(self).middleware_count() == old(self).middleware_count(),
    {
        let owned: String = String::from_str(name);
        self.entries.push((owned, procedure));
        proof {
            assert(self.registry() =~= old(self).registry().push((name@, procedure.deep_view())));
        }
    }

    /// Registers a context-carrying method under `name`.
    pub fn add_method_with_meta(&mut self, name: &str, method: F)
        ensures
            final(self).registry() == old(self).registry().push((name@, ProcedureView::Method)),
            final(self).spec_compatibility() == old(self).spec_compatibility(),
            final(self).middleware_count() == old(self).middleware_count(),
    {
        self.register(name, RemoteProcedure::Method(method));
    }

    /// Registers a context-carrying notification under `name`.
    pub fn add_notification_with_meta(&mut self, name: &str, notification: N)
        ensures
            final(self).registry() == old(self).registry().push(
                (name@, ProcedureView::Notification),
            ),
            final(self).spec_compatibility() == old(self).spec_compatibility(),
            final(self).middleware_count() == old(self).middleware_count(),
    {
        self.register(name, RemoteProcedure::Notification(notification));
    }

    /// Registers `alias` as another name for `other`.  The target need not
    /// exist yet: the redirect is followed at dispatch time.
    pub fn add_alias(&mut self, alias: &str, other: &str)
        ensures
            final(self).registry() == old(self).registry().push(
                (alias@, ProcedureView::Alias(other@)),
            ),
            final(self).spec_compatibility() == old(self).spec_compatibility(),
            final(self).middleware_count() == old(self).middleware_count(),
    {
        let target: String = String::from_str(other);
        self.register(alias, RemoteProcedure::Alias(target));
    }

    /// Merges another handler's procedures into this one, in their
    /// registration order; its entries shadow same-named entries here.
    pub fn extend_with(&mut self, other: Self)
        ensures
            final(self).registry() == old(self).registry() + other.registry(),
            final(self).spec_compatibility() == old(self).spec_compatibility(),
            final(self).middleware_count() == old(self).middleware_count(),
    {
        let mut incoming = other.entries;
        let ghost incoming0 = incoming@;
        while incoming.len() > 0
            invariant
                self.compatibility == old(self).compatibility,
                self.middlewares@ == old(self).middlewares@,
                self.entries@ + incoming@ == old(self).entries@ + incoming0,
            decreases incoming@.len(),
        {
            let entry = incoming.remove(0);
            self.entries.push(entry);
            proof {
                assert(self.entries@ + incoming@ =~= old(self).entries@ + incoming0);
            }
        }
        proof {
            assert(self.entries@ =~= self.entries@ + incoming@);
            assert(self.registry() =~= old(self).registry() + other.registry());
        }
    }

    /// The index of the entry registered last under `name`, if any.
    fn lookup_entry(&self, name: &String) -> (r: Option<usize>)
        ensures
            match r {
                Option::Some(i) => i < self.entries@.len() && lookup(self.registry(), name@)
                    == Option::Some(i as int),
                Option::None => lookup(self.registry(), name@) is None,
            },
    {
        let ghost reg = self.registry();
        let mut i: usize = self.entries.len();
        proof {
            assert(reg.subrange(0, i as int) =~= reg);
        }
        while i > 0
            invariant
                0 <= i <= self.entries@.len(),
                reg == self.registry(),
                lookup(reg, name@) == lookup(reg.subrange(0, i as int), name@),
            decreases i,
        {
            i -= 1;
            let hit = self.entries[i].0 == *name;
            proof {
                let prefix = reg.subrange(0, i as int + 1);
                assert(prefix[prefix.len() - 1] == reg[i as int]);
                assert(prefix.drop_last() =~= reg.subrange(0, i as int));
            }
            if hit {
                return Some(i);
            }
        }
        proof {
            assert(reg.subrange(0, 0) =~= Seq::<(Seq<char>, ProcedureView)>::empty());
        }
        None
    }

    /// The entry a request for `name` dispatches to, following at most one
    /// alias hop.
    fn resolve_entry(&self, name: &String) -> (r: Option<usize>)
        ensures
            match r {
                Option::Some(i) => i < self.entries@.len() && resolve(self.registry(), name@)
                    == Option::Some(i as int),
                Option::None => resolve(self.registry(), name@) is None,
            },
    {
        match self.lookup_entry(name) {
            None => None,
            Some(i) => match &self.entries[i].1 {
                RemoteProcedure::Alias(target) => match self.lookup_entry(target) {
                    None => None,
                    Some(j) => match &self.entries[j].1 {
                        RemoteProcedure::Alias(_) => None,
                        _ => Some(j),
                    },
                },
                _ => Some(i),
            },
        }
    }

    /// Consults the chain in registration order; the first middleware that
    /// responds short-circuits everything inner.
    fn run_middlewares(&self, call: &Call, meta: &M) -> (r: Option<Output>)
        ensures
            self.no_middleware() ==> r is None,
    {
        let mut k: usize = 0;
        while k < self.middlewares.len()
            invariant
                0 <= k <= self.middlewares@.len(),
            decreases self.middlewares@.len() - k,
        {
            match self.middlewares[k].on_call(call, meta) {
                MiddlewareAction::Respond(o) => {
                    return Some(o);
                },
                MiddlewareAction::Proceed => {
                    k += 1;
                },
            }
        }
        None
    }

    /// Fires a notification: resolve and invoke, nothing observable comes
    /// back and failures vanish.
    fn invoke_notification(&self, method: &String, params: Params, meta: M) {
        match self.resolve_entry(method) {
            Some(j) => match &self.entries[j].1 {
                RemoteProcedure::Notification(n) => n.execute(params, meta),
                RemoteProcedure::Method(f) => {
                    let _ = f.call(params, meta);
                },
                RemoteProcedure::Alias(_) => {},
            },
            None => {},
        }
    }

    /// Invokes the method at resolved entry `j` and shapes whatever came
    /// back — a value or the capability's own error — into the owed entry.
    fn dispatch_method(
        &self,
        jsonrpc: Option<Version>,
        method: &String,
        params: Params,
        id: Id,
        meta: M,
    ) -> (o: Output)
        ensures
            match resolve(self.registry(), method@) {
                Option::None => o.deep_view() == failure_output(
                    ErrorCode::MethodNotFound,
                    jsonrpc,
                    id.deep_view(),
                ),
                Option::Some(j) => match self.registry()[j].1 {
                    ProcedureView::Method => o.deep_view().spec_id() == id.deep_view()
                        && o.deep_view().spec_version() == jsonrpc,
                    ProcedureView::Notification => o.deep_view() == failure_output(
                        ErrorCode::MethodNotFound,
                        jsonrpc,
                        id.deep_view(),
                    ),
                    ProcedureView::Alias(_) => true,
                },
            },
    {
        match self.resolve_entry(method) {
            None => Output::Failure { jsonrpc, error: Error::method_not_found(), id },
            Some(j) => match &self.entries[j].1 {
                RemoteProcedure::Method(f) => output_from(jsonrpc, id, f.call(params, meta)),
                _ => Output::Failure { jsonrpc, error: Error::method_not_found(), id },
            },
        }
    }

    /// Folds a call's response entry through the chain's response hooks,
    /// innermost-first: the middleware registered first observes it last.
    fn run_output_middlewares(&self, output: Output, meta: &M) -> (r: Output)
        ensures
            self.no_middleware() ==> r == output,
    {
        let mut out = output;
        let mut k: usize = self.middlewares.len();
        while k > 0
            invariant
                k <= self.middlewares@.len(),
                self.no_middleware() ==> out == output,
            decreases k,
        {
            k -= 1;
            out = self.middlewares[k].on_output(out, meta);
        }
        out
    }

    /// Processes one validated envelope: middleware first, then — unless a
    /// middleware short-circuited — registry resolution and invocation, and
    /// the response hooks over whatever entry came out of that.  An invalid
    /// envelope never reaches the chain: middleware wraps the processing of
    /// validated requests only.
    pub fn handle_call(&self, call: Call, meta: M) -> (r: Option<Output>)
        ensures
            call_output_ok(self.registry(), self.no_middleware(), call.deep_view(), opt_output_view(r)),
    {
        let mid = match &call {
            Call::Invalid { .. } => None,
            _ => self.run_middlewares(&call, &meta),
        };
        match call {
            Call::Invalid { id } => Some(
                Output::Failure { jsonrpc: Some(Version::V2), error: Error::invalid_request(), id },
            ),
            Call::Notification { jsonrpc: _, method, params } => {
                if mid.is_none() {
                    self.invoke_notification(&method, params, meta);
                }
                None
            },
            Call::MethodCall { jsonrpc, method, params, id } => {
                let produced = match mid {
                    Some(o) => o,
                    None => self.dispatch_method(jsonrpc, &method, params, id, meta.clone()),
                };
                Some(self.run_output_middlewares(produced, &meta))
            },
        }
    }

    /// Processes a batch's envelopes in order, the context cloned to each,
    /// and gathers the owed entries in that same order.
    pub fn handle_calls(&self, calls: Vec<Call>, meta: M) -> (outs: Vec<Output>)
        ensures
            outputs_ok(
                self.registry(),
                self.no_middleware(),
                calls.deep_view(),
                outs.deep_view(),
            ),
    {
        let ghost calls0 = calls.deep_view();
        let ghost mut processed: Seq<CallView> = Seq::empty();
        let mut rest = calls;
        let mut outs: Vec<Output> = Vec::new();
        proof {
            assert(outs.deep_view() =~= Seq::<OutputView>::empty());
            assert(processed + rest.deep_view() =~= calls0);
        }
        while rest.len() > 0
            invariant
                processed + rest.deep_view() == calls0,
                outputs_ok(self.registry(), self.no_middleware(), processed, outs.deep_view()),
            decreases rest@.len(),
        {
            let ghost rest_before = rest.deep_view();
            let ghost outs_before = outs.deep_view();
            let c = rest.remove(0);
            let ghost cv = c.deep_view();
            let r = self.handle_call(c, meta.clone());
            proof {
                assert(rest.deep_view() =~= rest_before.subrange(1, rest_before.len() as int));
                assert(cv == rest_before[0]);
                lemma_outputs_ok_snoc(
                    self.registry(),
                    self.no_middleware(),
                    processed,
                    outs_before,
                    cv,
                    opt_output_view(r),
                );
                processed = processed.push(cv);
                assert(processed + rest.deep_view() =~= calls0);
            }
            match r {
                Some(o) => {
                    outs.push(o);
                    proof {
                        assert(outs.deep_view() =~= outs_before.push(o.deep_view()));
                    }
                },
                None => {},
            }
        }
        proof {
            assert(rest.deep_view() =~= Seq::<CallView>::empty());
            assert(processed =~= calls0);
        }
        outs
    }

    /// Answers one decoded payload: classify as batch or single request,
    /// validate, dispatch, and aggregate entries in input order.
    pub fn handle_decoded(&self, decoded: Option<JsonValue>, meta: M) -> (r: Option<JsonValue>)
        ensures
            response_ok(
                self.registry(),
                self.no_middleware(),
                self.spec_compatibility(),
                opt_value_view(decoded),
                opt_value_view(r),
            ),
            (r is None) <==> spec_silent(self.spec_compatibility(), opt_value_view(decoded)),
    {
        match decoded {
            None => Some(
                output_value(
                    Output::Failure {
                        jsonrpc: Some(Version::V2),
                        error: Error::parse_error(),
                        id: Id::Null,
                    },
                ),
            ),
            Some(JsonValue::Array(elems)) => {
                if elems.len() == 0 {
                    return Some(
                        output_value(
                            Output::Failure {
                                jsonrpc: Some(Version::V2),
                                error: Error::invalid_request(),
                                id: Id::Null,
                            },
                        ),
                    );
                }
                let ghost elems0 = crate::types::values_view(elems@);
                let ghost expected = validate_all(elems0, self.spec_compatibility());
                let mut rest = elems;
                let mut calls: Vec<Call> = Vec::new();
                proof {
                    crate::types::lemma_values_view_index(rest@);
                    assert(calls.deep_view() =~= expected.subrange(0, 0));
                }
                while rest.len() > 0
                    invariant
                        expected == validate_all(elems0, self.spec_compatibility()),
                        calls.deep_view().len() + rest@.len() == elems0.len(),
                        crate::types::values_view(rest@) =~= elems0.subrange(
                            calls.deep_view().len() as int,
                            elems0.len() as int,
                        ),
                        calls.deep_view() == expected.subrange(
                            0,
                            calls.deep_view().len() as int,
                        ),
                    decreases rest@.len(),
                {
                    let ghost rest_before = rest@;
                    let ghost n_before = calls.deep_view().len();
                    let ghost calls_before = calls.deep_view();
                    proof {
                        crate::types::lemma_values_view_index(rest_before);
                    }
                    let e = rest.remove(0);
                    let c = validate_request(e, self.compatibility);
                    calls.push(c);
                    proof {
                        assert(rest@ =~= rest_before.subrange(1, rest_before.len() as int));
                        crate::types::lemma_values_view_index(rest@);
                        crate::types::lemma_values_view_index(rest_before);
                        assert(e == rest_before[0]);
                        assert(crate::types::value_view(e) == crate::types::values_view(
                            rest_before,
                        )[0]);
                        assert(crate::types::value_view(e) == elems0[n_before as int]);
                        assert(calls.deep_view() =~= calls_before.push(c.deep_view()));
                        crate::types::lemma_values_view_subrange(
                            rest_before,
                            1,
                            rest_before.len() as int,
                        );
                        assert(crate::types::values_view(rest@) == crate::types::values_view(
                            rest_before,
                        ).subrange(1, rest_before.len() as int));
                        assert(crate::types::values_view(rest@) =~= elems0.subrange(
                            n_before as int + 1,
                            elems0.len() as int,
                        ));
                        assert(c.deep_view() == expected[n_before as int]);
                        assert(calls.deep_view() =~= expected.subrange(0, n_before as int + 1));
                    }
                }
                let ghost calls_full = calls.deep_view();
                proof {
                    assert(calls_full =~= expected);
                }
                let outs = self.handle_calls(calls, meta);
                proof {
                    lemma_outputs_ok_len(
                        self.registry(),
                        self.no_middleware(),
                        expected,
                        outs.deep_view(),
                    );
                }
                if outs.len() == 0 {
                    None
                } else {
                    let ghost outs0 = outs.deep_view();
                    let mut rest_outs = outs;
                    let mut arr: Vec<JsonValue> = Vec::new();
                    proof {
                        crate::types::lemma_values_view_index(arr@);
                        assert(crate::types::values_view(arr@) =~= outputs_view_values(
                            outs0,
                        ).subrange(0, 0));
                    }
                    while rest_outs.len() > 0
                        invariant
                            arr@.len() + rest_outs.deep_view().len() == outs0.len(),
                            rest_outs.deep_view() =~= outs0.subrange(
                                arr@.len() as int,
                                outs0.len() as int,
                            ),
                            crate::types::values_view(arr@) == outputs_view_values(
                                outs0,
                            ).subrange(0, arr@.len() as int),
                        decreases rest_outs@.len(),
                    {
                        let ghost rest_before = rest_outs.deep_view();
                        let ghost arr_before = arr@;
                        let o = rest_outs.remove(0);
                        let v = output_value(o);
                        arr.push(v);
                        proof {
                            assert(rest_outs.deep_view() =~= rest_before.subrange(
                                1,
                                rest_before.len() as int,
                            ));
                            assert(o.deep_view() == rest_before[0]);
                            assert(o.deep_view() == outs0[arr_before.len() as int]);
                            crate::types::lemma_values_view_index(arr@);
                            crate::types::lemma_values_view_index(arr_before);
                            assert(crate::types::values_view(arr@) =~= outputs_view_values(
                                outs0,
                            ).subrange(0, arr@.len() as int));
                        }
                    }
                    proof {
                        assert(crate::types::values_view(arr@) =~= outputs_view_values(outs0));
                    }
                    Some(JsonValue::Array(arr))
                }
            },
            Some(v) => {
                let c = validate_request(v, self.compatibility);
                let r = self.handle_call(c, meta);
                match r {
                    Some(o) => Some(output_value(o)),
                    None => None,
                }
            },
        }
    }

    /// The top-level entry point: decode the request text, dispatch it, and
    /// encode whatever is owed.  `None` comes back exactly for the payloads
    /// the protocol answers with silence: a lone valid notification, or a
    /// non-empty batch of valid notifications.  Text that does not decode
    /// is answered with the ParseError entry under a null id.
    pub fn handle_request(&self, request: &str, meta: M) -> (r: Option<String>)
        ensures
            match r {
                Option::Some(text) => exists|rv: ValueView|
                    #[trigger] response_ok(
                        self.registry(),
                        self.no_middleware(),
                        self.spec_compatibility(),
                        json_decoded(request@),
                        Option::Some(rv),
                    ) && text@ == json_encoded(rv),
                Option::None => response_ok(
                    self.registry(),
                    self.no_middleware(),
                    self.spec_compatibility(),
                    json_decoded(request@),
                    Option::None,
                ),
            },
            (r is None) <==> spec_silent(self.spec_compatibility(), json_decoded(request@)),
            json_decoded(request@) is None ==> (r matches Option::Some(text) && text@
                == json_encoded(
                output_view_value(
                    failure_output(ErrorCode::ParseError, Option::Some(Version::V2), IdView::Null),
                ),
            )),
    {
        let decoded = decode_text(request);
        let resp = self.handle_decoded(decoded, meta);
        match resp {
            Some(v) => Some(encode_value(&v)),
            None => None,
        }
    }
}

/// How many response entries a sequence of envelopes owes: one per
/// envelope that is not a notification.
pub open spec fn count_outputs(calls: Seq<CallView>) -> nat
    decreases calls.len(),
{
    if calls.len() == 0 {
        0
    } else {
        (if yields_output(calls[0]) {
            1nat
        } else {
            0nat
        }) + count_outputs(calls.subrange(1, calls.len() as int))
    }
}

/// The engine's guarantee for a batch: one response entry per output-owing
/// envelope, in the envelopes' input order, each entry as `call_output_ok`
/// says; notifications leave no trace.
pub open spec fn outputs_ok(
    reg: RegistryView,
    nomid: bool,
    calls: Seq<CallView>,
    outs: Seq<OutputView>,
) -> bool
    decreases calls.len(),
{
    if calls.len() == 0 {
        outs.len() == 0
    } else if yields_output(calls[0]) {
        &&& outs.len() > 0
        &&& call_output_ok(reg, nomid, calls[0], Option::Some(outs[0]))
        &&& outputs_ok(
            reg,
            nomid,
            calls.subrange(1, calls.len() as int),
            outs.subrange(1, outs.len() as int),
        )
    } else {
        outputs_ok(reg, nomid, calls.subrange(1, calls.len() as int), outs)
    }
}

/// An envelope owes an entry exactly when its guarantee carries one.
proof fn lemma_call_output_some(reg: RegistryView, nomid: bool, c: CallView, o: Option<OutputView>)
    requires
        call_output_ok(reg, nomid, c, o),
    ensures
        o is Some <==> yields_output(c),
{
}

/// Extending a batch by one envelope extends its guarantee.
proof fn lemma_outputs_ok_snoc(
    reg: RegistryView,
    nomid: bool,
    calls: Seq<CallView>,
    outs: Seq<OutputView>,
    c: CallView,
    o: Option<OutputView>,
)
    requires
        outputs_ok(reg, nomid, calls, outs),
        call_output_ok(reg, nomid, c, o),
    ensures
        outputs_ok(
            reg,
            nomid,
            calls.push(c),
            match o {
                Option::Some(x) => outs.push(x),
                Option::None => outs,
            },
        ),
    decreases calls.len(),
{
    lemma_call_output_some(reg, nomid, c, o);
    let calls2 = calls.push(c);
    let outs2 = match o {
        Option::Some(x) => outs.push(x),
        Option::None => outs,
    };
    if calls.len() == 0 {
        assert(outs.len() == 0);
        assert(outputs_ok(reg, nomid, Seq::<CallView>::empty(), Seq::<OutputView>::empty()));
        assert(outputs_ok(reg, nomid, Seq::<CallView>::empty(), outs));
        assert(calls2[0] == c);
        if yields_output(c) {
            assert(o is Some);
            assert(outs2.len() == 1);
            assert(outs2[0] == o->Some_0);
            assert(call_output_ok(reg, nomid, calls2[0], Option::Some(outs2[0])));
            assert(calls2.subrange(1, calls2.len() as int) =~= Seq::<CallView>::empty());
            assert(outs2.subrange(1, outs2.len() as int) =~= Seq::<OutputView>::empty());
        } else {
            assert(calls2.subrange(1, calls2.len() as int) =~= Seq::<CallView>::empty());
        }
        assert(outputs_ok(reg, nomid, calls2, outs2));
    } else {
        assert(calls2[0] == calls[0]);
        assert(calls2.subrange(1, calls2.len() as int) =~= calls.subrange(
            1,
            calls.len() as int,
        ).push(c));
        if yields_output(calls[0]) {
            lemma_outputs_ok_snoc(
                reg,
                nomid,
                calls.subrange(1, calls.len() as int),
                outs.subrange(1, outs.len() as int),
                c,
                o,
            );
            match o {
                Option::Some(x) => {
                    assert(outs2[0] == outs[0]);
                    assert(outs2.subrange(1, outs2.len() as int) =~= outs.subrange(
                        1,
                        outs.len() as int,
                    ).push(x));
                },
                Option::None => {
                    assert(outs2.subrange(1, outs2.len() as int) =~= outs.subrange(
                        1,
                        outs.len() as int,
                    ));
                },
            }
        } else {
            lemma_outputs_ok_snoc(reg, nomid, calls.subrange(1, calls.len() as int), outs, c, o);
        }
    }
}

/// A batch answers with exactly one entry per output-owing envelope:
/// notifications leave no trace, everything else leaves one entry.
pub proof fn lemma_outputs_ok_len(
    reg: RegistryView,
    nomid: bool,
    calls: Seq<CallView>,
    outs: Seq<OutputView>,
)
    requires
        outputs_ok(reg, nomid, calls, outs),
    ensures
        outs.len() == count_outputs(calls),
    decreases calls.len(),
{
    if calls.len() > 0 {
        if yields_output(calls[0]) {
            lemma_outputs_ok_len(
                reg,
                nomid,
                calls.subrange(1, calls.len() as int),
                outs.subrange(1, outs.len() as int),
            );
        } else {
            lemma_outputs_ok_len(reg, nomid, calls.subrange(1, calls.len() as int), outs);
        }
    }
}

/// The validated envelopes of a batch's elements, elementwise.
pub open spec fn validate_all(elems: Seq<ValueView>, compat: Compatibility) -> Seq<CallView> {
    Seq::new(elems.len(), |i: int| spec_validate(elems[i], compat))
}

/// The wire values of a sequence of response entries, elementwise.
pub open spec fn outputs_view_values(outs: Seq<OutputView>) -> Seq<ValueView> {
    Seq::new(outs.len(), |i: int| output_view_value(outs[i]))
}

/// Whether a payload is answered with no output at all: a lone valid
/// notification, or a non-empty batch of valid notifications.  This is a
/// protocol rule, decided by validation alone — a transport must see
/// nothing for such payloads.
pub open spec fn spec_silent(compat: Compatibility, d: Option<ValueView>) -> bool {
    match d {
        Option::None => false,
        Option::Some(ValueView::Arr(elems)) => elems.len() > 0 && count_outputs(
            validate_all(elems, compat),
        ) == 0,
        Option::Some(v) => !yields_output(spec_validate(v, compat)),
    }
}

/// What the engine answers for one decoded payload.  Text that did not
/// decode is answered with the single ParseError entry under a null id; an
/// empty batch with the single InvalidRequest entry under a null id; a
/// non-empty batch with the array of its entries in input order, or with
/// nothing where no element owes one; a single request with its one entry,
/// or nothing for a notification.
pub open spec fn response_ok(
    reg: RegistryView,
    nomid: bool,
    compat: Compatibility,
    d: Option<ValueView>,
    r: Option<ValueView>,
) -> bool {
    match d {
        Option::None => r == Option::Some(
            output_view_value(
                failure_output(ErrorCode::ParseError, Option::Some(Version::V2), IdView::Null),
            ),
        ),
        Option::Some(ValueView::Arr(elems)) => if elems.len() == 0 {
            r == Option::Some(
                output_view_value(
                    failure_output(
                        ErrorCode::InvalidRequest,
                        Option::Some(Version::V2),
                        IdView::Null,
                    ),
                ),
            )
        } else {
            exists|outs: Seq<OutputView>|
                {
                    &&& #[trigger] outputs_ok(reg, nomid, validate_all(elems, compat), outs)
                    &&& (outs.len() == 0 ==> r is None)
                    &&& (outs.len() > 0 ==> r == Option::Some(
                        ValueView::Arr(outputs_view_values(outs)),
                    ))
                }
        },
        Option::Some(v) => {
            let c = spec_validate(v, compat);
            if yields_output(c) {
                exists|o: OutputView|
                    #[trigger] call_output_ok(reg, nomid, c, Option::Some(o)) && r == Option::Some(
                        output_view_value(o),
                    )
            } else {
                r is None
            }
        },
    }
}

/// Shapes a capability's outcome into the owed response entry: a success
/// entry around the returned value, or a failure entry around the returned
/// error, echoing the call's id and shape either way.
pub fn output_from(jsonrpc: Option<Version>, id: Id, outcome: Result<JsonValue, Error>) -> (o:
    Output)
    ensures
        o.deep_view() == (match outcome {
            Result::Ok(v) => OutputView::Success {
                jsonrpc,
                result: crate::types::value_view(v),
                id: id.deep_view(),
            },
            Result::Err(e) => OutputView::Failure { jsonrpc, error: e.deep_view(), id: id.deep_view() },
        }),
{
    match outcome {
        Ok(result) => Output::Success { jsonrpc, result, id },
        Err(error) => Output::Failure { jsonrpc, error, id },
    }
}

/// The context-free handler: the same dispatch engine serving capabilities
/// that take no per-call context.  Every request runs under the empty
/// context.
pub struct IoHandler<F: RpcMethodSimple, N: RpcNotificationSimple, W: Middleware<NoMeta>> {
    handler: MetaIoHandler<NoMeta, SimpleMethod<F>, SimpleNotification<N>, W>,
}

impl<F: RpcMethodSimple, N: RpcNotificationSimple, W: Middleware<NoMeta>> IoHandler<F, N, W> {
    /// The registry as contracts see it.
    pub closed spec fn registry(&self) -> RegistryView {
        self.handler.registry()
    }

    /// The compatibility policy the handler validates against.
    pub closed spec fn spec_compatibility(&self) -> Compatibility {
        self.handler.spec_compatibility()
    }

    /// Whether the middleware chain is empty.
    pub closed spec fn no_middleware(&self) -> bool {
        self.handler.no_middleware()
    }

    /// A fresh handler accepting both protocol shapes, with no procedures
    /// and no middleware.
    pub fn new() -> (h: Self)
        ensures
            h.registry() == Seq::<(Seq<char>, ProcedureView)>::empty(),
            h.spec_compatibility() == Compatibility::Both,
            h.no_middleware(),
    {
        IoHandler { handler: MetaIoHandler::with_compatibility(Compatibility::Both) }
    }

    /// A fresh handler with the given compatibility policy.
    pub fn with_compatibility(compatibility: Compatibility) -> (h: Self)
        ensures
            h.registry() == Seq::<(Seq<char>, ProcedureView)>::empty(),
            h.spec_compatibility() == compatibility,
            h.no_middleware(),
    {
        IoHandler { handler: MetaIoHandler::with_compatibility(compatibility) }
    }

    /// Registers a context-free method under `name`, shadowing any earlier
    /// entry of that name.
    pub fn add_method(&mut self, name: &str, method: F)
        ensures
            final(self).registry() == old(self).registry().push((name@, ProcedureView::Method)),
            final(self).spec_compatibility() == old(self).spec_compatibility(),
            final(self).no_middleware() == old(self).no_middleware(),
    {
        self.handler.add_method_with_meta(name, SimpleMethod(method));
    }

    /// Registers a context-free notification under `name`.
    pub fn add_notification(&mut self, name: &str, notification: N)
        ensures
            final(self).registry() == old(self).registry().push(
                (name@, ProcedureView::Notification),
            ),
            final(self).spec_compatibility() == old(self).spec_compatibility(),
            final(self).no_middleware() == old(self).no_middleware(),
    {
        self.handler.add_notification_with_meta(name, SimpleNotification(notification));
    }

    /// Registers `alias` as another name for `other`.
    pub fn add_alias(&mut self, alias: &str, other: &str)
        ensures
            final(self).registry() == old(self).registry().push(
                (alias@, ProcedureView::Alias(other@)),
            ),
            final(self).spec_compatibility() == old(self).spec_compatibility(),
            final(self).no_middleware() == old(self).no_middleware(),
    {
        self.handler.add_alias(alias, other);
    }

    /// The top-level entry point, under the empty context; the guarantees
    /// are those of the context-carrying handler.
    pub fn handle_request(&self, request: &str) -> (r: Option<String>)
        ensures
            match r {
                Option::Some(text) => exists|rv: ValueView|
                    #[trigger] response_ok(
                        self.registry(),
                        self.no_middleware(),
                        self.spec_compatibility(),
                        json_decoded(request@),
                        Option::Some(rv),
                    ) && text@ == json_encoded(rv),
                Option::None => response_ok(
                    self.registry(),
                    self.no_middleware(),
                    self.spec_compatibility(),
                    json_decoded(request@),
                    Option::None,
                ),
            },
            (r is None) <==> spec_silent(self.spec_compatibility(), json_decoded(request@)),
    {
        let r = self.handler.handle_request(request, NoMeta);
        proof {
            if r is Some {
                let text = r->Some_0;
                let rv = choose|rv: ValueView|
                    response_ok(
                        self.handler.registry(),
                        self.handler.no_middleware(),
                        self.handler.spec_compatibility(),
                        json_decoded(request@),
                        Option::Some(rv),
                    ) && text@ == json_encoded(rv);
                assert(response_ok(
                    self.registry(),
                    self.no_middleware(),
                    self.spec_compatibility(),
                    json_decoded(request@),
                    Option::Some(rv),
                ) && text@ == json_encoded(rv));
            }
        }
        r
    }
}

} // verus!
