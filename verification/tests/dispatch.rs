//! End-to-end tests of the dispatch engine through its text entry point.

use std::sync::atomic::{AtomicUsize, Ordering};
use std::sync::Arc;

use jsonrpc_core::calls::{Metadata, RemoteProcedure, RpcMethod, RpcNotification};
use jsonrpc_core::io::MetaIoHandler;
use jsonrpc_core::middleware::{Middleware, MiddlewareAction, Noop};
use jsonrpc_core::types::{
    Call, Compatibility, Error, ErrorCode, Id, JsonValue, Output, Params, Version,
};

#[derive(Clone)]
struct Meta(i64);

impl Metadata for Meta {}

enum TestMethod {
    HelloWorld,
    HelloMeta,
    Fail(i64),
    FailWithData,
    Counted(Arc<AtomicUsize>),
}

impl RpcMethod<Meta> for TestMethod {
    fn call(&self, _params: Params, meta: Meta) -> Result<JsonValue, Error> {
        match self {
            TestMethod::HelloWorld => Ok(JsonValue::String("Hello World!".to_string())),
            TestMethod::HelloMeta => {
                Ok(JsonValue::String(format!("Hello World: {}", meta.0)))
            }
            TestMethod::Fail(code) => Err(Error::new(ErrorCode::ServerError(*code))),
            TestMethod::FailWithData => Err(Error {
                code: ErrorCode::InvalidParams,
                message: "Invalid params".to_string(),
                data: Some(JsonValue::String("two arguments expected".to_string())),
            }),
            TestMethod::Counted(hits) => {
                hits.fetch_add(1, Ordering::SeqCst);
                Ok(JsonValue::Null)
            }
        }
    }
}

struct TestNotification(Arc<AtomicUsize>);

impl RpcNotification<Meta> for TestNotification {
    fn execute(&self, _params: Params, _meta: Meta) {
        self.0.fetch_add(1, Ordering::SeqCst);
    }
}

struct RejectAll;

impl Middleware<Meta> for RejectAll {
    fn on_call(&self, _call: &Call, _meta: &Meta) -> MiddlewareAction {
        MiddlewareAction::Respond(Output::Failure {
            jsonrpc: Some(Version::V2),
            error: Error::new(ErrorCode::ServerError(-32050)),
            id: Id::Null,
        })
    }
}

struct RewriteResults;

impl Middleware<Meta> for RewriteResults {
    fn on_call(&self, _call: &Call, _meta: &Meta) -> MiddlewareAction {
        MiddlewareAction::Proceed
    }

    fn on_output(&self, output: Output, _meta: &Meta) -> Output {
        match output {
            Output::Success { jsonrpc, result: _, id } => Output::Success {
                jsonrpc,
                result: JsonValue::String("intercepted".to_string()),
                id,
            },
            other => other,
        }
    }
}

struct CountCalls(Arc<AtomicUsize>);

impl Middleware<Meta> for CountCalls {
    fn on_call(&self, _call: &Call, _meta: &Meta) -> MiddlewareAction {
        self.0.fetch_add(1, Ordering::SeqCst);
        MiddlewareAction::Proceed
    }
}

type Handler<W = Noop> = MetaIoHandler<Meta, TestMethod, TestNotification, W>;

fn hello_handler() -> Handler {
    let mut io: Handler = MetaIoHandler::new();
    io.add_method_with_meta("say_hello", TestMethod::HelloWorld);
    io
}

#[test]
fn single_method_call_yields_result_with_matching_id() {
    let io = hello_handler();
    let request = r#"{"jsonrpc": "2.0", "method": "say_hello", "params": [42, 23], "id": 1}"#;
    let response = r#"{"jsonrpc":"2.0","result":"Hello World!","id":1}"#;
    assert_eq!(io.handle_request(request, Meta(0)), Some(response.to_string()));
}

#[test]
fn metadata_is_threaded_to_the_capability() {
    let mut io: Handler = MetaIoHandler::new();
    io.add_method_with_meta("say_hello", TestMethod::HelloMeta);
    let request = r#"{"jsonrpc": "2.0", "method": "say_hello", "params": [42, 23], "id": 1}"#;
    let response = r#"{"jsonrpc":"2.0","result":"Hello World: 5","id":1}"#;
    assert_eq!(io.handle_request(request, Meta(5)), Some(response.to_string()));
}

#[test]
fn malformed_text_yields_parse_error_with_null_id() {
    let io = hello_handler();
    let expected =
        r#"{"jsonrpc":"2.0","error":{"code":-32700,"message":"Parse error"},"id":null}"#;
    assert_eq!(io.handle_request("this is not json", Meta(0)), Some(expected.to_string()));
}

#[test]
fn empty_batch_yields_invalid_request_with_null_id() {
    let io = hello_handler();
    let expected =
        r#"{"jsonrpc":"2.0","error":{"code":-32600,"message":"Invalid request"},"id":null}"#;
    assert_eq!(io.handle_request("[]", Meta(0)), Some(expected.to_string()));
}

#[test]
fn non_object_request_yields_invalid_request_with_null_id() {
    let io = hello_handler();
    let expected =
        r#"{"jsonrpc":"2.0","error":{"code":-32600,"message":"Invalid request"},"id":null}"#;
    assert_eq!(io.handle_request("5", Meta(0)), Some(expected.to_string()));
}

#[test]
fn unknown_method_yields_method_not_found_with_id_preserved() {
    let io = hello_handler();
    let request = r#"{"jsonrpc": "2.0", "method": "no_such_method", "id": 7}"#;
    let expected =
        r#"{"jsonrpc":"2.0","error":{"code":-32601,"message":"Method not found"},"id":7}"#;
    assert_eq!(io.handle_request(request, Meta(0)), Some(expected.to_string()));
}

#[test]
fn string_id_is_echoed() {
    let io = hello_handler();
    let request = r#"{"jsonrpc": "2.0", "method": "say_hello", "id": "abc"}"#;
    let expected = r#"{"jsonrpc":"2.0","result":"Hello World!","id":"abc"}"#;
    assert_eq!(io.handle_request(request, Meta(0)), Some(expected.to_string()));
}

#[test]
fn null_id_is_a_call_and_is_echoed() {
    let io = hello_handler();
    let request = r#"{"jsonrpc": "2.0", "method": "say_hello", "id": null}"#;
    let expected = r#"{"jsonrpc":"2.0","result":"Hello World!","id":null}"#;
    assert_eq!(io.handle_request(request, Meta(0)), Some(expected.to_string()));
}

#[test]
fn invalid_id_type_yields_invalid_request() {
    let io = hello_handler();
    let request = r#"{"jsonrpc": "2.0", "method": "say_hello", "id": [1]}"#;
    let expected =
        r#"{"jsonrpc":"2.0","error":{"code":-32600,"message":"Invalid request"},"id":null}"#;
    assert_eq!(io.handle_request(request, Meta(0)), Some(expected.to_string()));
}

#[test]
fn notification_yields_no_output_even_when_the_capability_fails() {
    let mut io = hello_handler();
    io.add_method_with_meta("fails", TestMethod::Fail(-1));
    let request = r#"{"jsonrpc": "2.0", "method": "fails", "params": [1]}"#;
    assert_eq!(io.handle_request(request, Meta(0)), None);
}

#[test]
fn notification_capability_is_invoked() {
    let hits = Arc::new(AtomicUsize::new(0));
    let mut io = hello_handler();
    io.add_notification_with_meta("notify", TestNotification(hits.clone()));
    let request = r#"{"jsonrpc": "2.0", "method": "notify", "params": [7]}"#;
    assert_eq!(io.handle_request(request, Meta(0)), None);
    assert_eq!(hits.load(Ordering::SeqCst), 1);
}

#[test]
fn capability_error_is_surfaced_as_failure_entry() {
    let mut io: Handler = MetaIoHandler::new();
    io.add_method_with_meta("fails", TestMethod::Fail(123));
    let request = r#"{"jsonrpc": "2.0", "method": "fails", "id": 2}"#;
    let expected = r#"{"jsonrpc":"2.0","error":{"code":123,"message":"Server error"},"id":2}"#;
    assert_eq!(io.handle_request(request, Meta(0)), Some(expected.to_string()));
}

#[test]
fn capability_error_data_is_emitted() {
    let mut io: Handler = MetaIoHandler::new();
    io.add_method_with_meta("picky", TestMethod::FailWithData);
    let request = r#"{"jsonrpc": "2.0", "method": "picky", "params": [], "id": 3}"#;
    let expected = r#"{"jsonrpc":"2.0","error":{"code":-32602,"message":"Invalid params","data":"two arguments expected"},"id":3}"#;
    assert_eq!(io.handle_request(request, Meta(0)), Some(expected.to_string()));
}

#[test]
fn batch_output_preserves_input_order() {
    let mut io = hello_handler();
    io.add_method_with_meta("fails", TestMethod::Fail(-32050));
    let request = r#"[{"jsonrpc": "2.0", "method": "fails", "id": 2},{"jsonrpc": "2.0", "method": "say_hello", "params": [1]},{"jsonrpc": "2.0", "method": "say_hello", "id": 1}]"#;
    let expected = r#"[{"jsonrpc":"2.0","error":{"code":-32050,"message":"Server error"},"id":2},{"jsonrpc":"2.0","result":"Hello World!","id":1}]"#;
    assert_eq!(io.handle_request(request, Meta(0)), Some(expected.to_string()));
}

#[test]
fn malformed_batch_element_fails_alone() {
    let io = hello_handler();
    let request = r#"[{"jsonrpc": "2.0", "method": "say_hello", "id": 1},{"jsonrpc": "2.0", "id": 9}]"#;
    let expected = r#"[{"jsonrpc":"2.0","result":"Hello World!","id":1},{"jsonrpc":"2.0","error":{"code":-32600,"message":"Invalid request"},"id":null}]"#;
    assert_eq!(io.handle_request(request, Meta(0)), Some(expected.to_string()));
}

#[test]
fn all_notification_batch_yields_no_output() {
    let io = hello_handler();
    let request = r#"[{"jsonrpc": "2.0", "method": "say_hello", "params": [1]},{"jsonrpc": "2.0", "method": "say_hello", "params": [2]}]"#;
    assert_eq!(io.handle_request(request, Meta(0)), None);
}

#[test]
fn alias_behaves_like_its_target() {
    let mut io = hello_handler();
    io.add_alias("greet", "say_hello");
    let direct = io.handle_request(r#"{"jsonrpc": "2.0", "method": "say_hello", "id": 1}"#, Meta(0));
    let aliased = io.handle_request(r#"{"jsonrpc": "2.0", "method": "greet", "id": 1}"#, Meta(0));
    assert_eq!(direct, aliased);
    assert_eq!(direct, Some(r#"{"jsonrpc":"2.0","result":"Hello World!","id":1}"#.to_string()));
}

#[test]
fn alias_registered_before_its_target_still_works() {
    let mut io: Handler = MetaIoHandler::new();
    io.add_alias("greet", "say_hello");
    io.add_method_with_meta("say_hello", TestMethod::HelloWorld);
    let request = r#"{"jsonrpc": "2.0", "method": "greet", "id": 1}"#;
    let expected = r#"{"jsonrpc":"2.0","result":"Hello World!","id":1}"#;
    assert_eq!(io.handle_request(request, Meta(0)), Some(expected.to_string()));
}

#[test]
fn self_referential_alias_fails_with_method_not_found() {
    let mut io: Handler = MetaIoHandler::new();
    io.add_alias("loop_name", "loop_name");
    let request = r#"{"jsonrpc": "2.0", "method": "loop_name", "id": 4}"#;
    let expected =
        r#"{"jsonrpc":"2.0","error":{"code":-32601,"message":"Method not found"},"id":4}"#;
    assert_eq!(io.handle_request(request, Meta(0)), Some(expected.to_string()));
}

#[test]
fn mutually_referential_aliases_fail_with_method_not_found() {
    let mut io: Handler = MetaIoHandler::new();
    io.add_alias("ping", "pong");
    io.add_alias("pong", "ping");
    let request = r#"{"jsonrpc": "2.0", "method": "ping", "id": 4}"#;
    let expected =
        r#"{"jsonrpc":"2.0","error":{"code":-32601,"message":"Method not found"},"id":4}"#;
    assert_eq!(io.handle_request(request, Meta(0)), Some(expected.to_string()));
}

#[test]
fn registering_a_name_twice_uses_the_latest_registration() {
    let mut io: Handler = MetaIoHandler::new();
    io.add_method_with_meta("m", TestMethod::Fail(-1));
    io.add_method_with_meta("m", TestMethod::HelloWorld);
    let request = r#"{"jsonrpc": "2.0", "method": "m", "id": 1}"#;
    let expected = r#"{"jsonrpc":"2.0","result":"Hello World!","id":1}"#;
    assert_eq!(io.handle_request(request, Meta(0)), Some(expected.to_string()));
}

#[test]
fn extend_with_merges_and_its_entries_shadow() {
    let mut a: Handler = MetaIoHandler::new();
    a.add_method_with_meta("one", TestMethod::HelloWorld);
    a.add_method_with_meta("shared", TestMethod::Fail(-1));
    let mut b: Handler = MetaIoHandler::new();
    b.add_method_with_meta("two", TestMethod::HelloMeta);
    b.add_method_with_meta("shared", TestMethod::HelloWorld);
    a.extend_with(b);
    let hello = r#"{"jsonrpc":"2.0","result":"Hello World!","id":1}"#;
    assert_eq!(
        a.handle_request(r#"{"jsonrpc": "2.0", "method": "one", "id": 1}"#, Meta(0)),
        Some(hello.to_string())
    );
    assert_eq!(
        a.handle_request(r#"{"jsonrpc": "2.0", "method": "shared", "id": 1}"#, Meta(0)),
        Some(hello.to_string())
    );
}

#[test]
fn register_accepts_a_remote_procedure_directly() {
    let mut io: Handler = MetaIoHandler::new();
    io.register("say_hello", RemoteProcedure::Method(TestMethod::HelloWorld));
    let request = r#"{"jsonrpc": "2.0", "method": "say_hello", "id": 1}"#;
    let expected = r#"{"jsonrpc":"2.0","result":"Hello World!","id":1}"#;
    assert_eq!(io.handle_request(request, Meta(0)), Some(expected.to_string()));
}

#[test]
fn calling_a_notification_entry_as_a_method_is_not_found() {
    let hits = Arc::new(AtomicUsize::new(0));
    let mut io: Handler = MetaIoHandler::new();
    io.add_notification_with_meta("notify", TestNotification(hits.clone()));
    let request = r#"{"jsonrpc": "2.0", "method": "notify", "id": 1}"#;
    let expected =
        r#"{"jsonrpc":"2.0","error":{"code":-32601,"message":"Method not found"},"id":1}"#;
    assert_eq!(io.handle_request(request, Meta(0)), Some(expected.to_string()));
    assert_eq!(hits.load(Ordering::SeqCst), 0);
}

#[test]
fn middleware_short_circuit_skips_the_capability() {
    let hits = Arc::new(AtomicUsize::new(0));
    let mut io: MetaIoHandler<Meta, TestMethod, TestNotification, RejectAll> =
        MetaIoHandler::new();
    io.add_method_with_meta("counted", TestMethod::Counted(hits.clone()));
    io.add_middleware(RejectAll);
    let request = r#"{"jsonrpc": "2.0", "method": "counted", "id": 1}"#;
    let expected =
        r#"{"jsonrpc":"2.0","error":{"code":-32050,"message":"Server error"},"id":null}"#;
    assert_eq!(io.handle_request(request, Meta(0)), Some(expected.to_string()));
    assert_eq!(hits.load(Ordering::SeqCst), 0);
}

#[test]
fn version_one_shape_is_accepted_and_answered_in_kind() {
    let mut io: Handler = MetaIoHandler::with_compatibility(Compatibility::Both);
    io.add_method_with_meta("say_hello", TestMethod::HelloWorld);
    let request = r#"{"method": "say_hello", "params": [], "id": 1}"#;
    let expected = r#"{"result":"Hello World!","error":null,"id":1}"#;
    assert_eq!(io.handle_request(request, Meta(0)), Some(expected.to_string()));
}

#[test]
fn version_one_null_id_is_a_notification() {
    let mut io: Handler = MetaIoHandler::with_compatibility(Compatibility::Both);
    io.add_method_with_meta("say_hello", TestMethod::HelloWorld);
    let request = r#"{"method": "say_hello", "params": [], "id": null}"#;
    assert_eq!(io.handle_request(request, Meta(0)), None);
}

#[test]
fn version_one_shape_is_rejected_by_a_strict_handler() {
    let io = hello_handler();
    let request = r#"{"method": "say_hello", "params": [], "id": 1}"#;
    let expected =
        r#"{"jsonrpc":"2.0","error":{"code":-32600,"message":"Invalid request"},"id":null}"#;
    assert_eq!(io.handle_request(request, Meta(0)), Some(expected.to_string()));
}

#[test]
fn version_one_failure_is_answered_in_kind() {
    let mut io: Handler = MetaIoHandler::with_compatibility(Compatibility::Both);
    io.add_method_with_meta("fails", TestMethod::Fail(-5));
    let request = r#"{"method": "fails", "params": [], "id": 6}"#;
    let expected = r#"{"result":null,"error":{"code":-5,"message":"Server error"},"id":6}"#;
    assert_eq!(io.handle_request(request, Meta(0)), Some(expected.to_string()));
}

#[test]
fn batch_may_mix_protocol_shapes() {
    let mut io: Handler = MetaIoHandler::with_compatibility(Compatibility::Both);
    io.add_method_with_meta("say_hello", TestMethod::HelloWorld);
    let request = r#"[{"jsonrpc": "2.0", "method": "say_hello", "id": 1},{"method": "say_hello", "params": [], "id": 2}]"#;
    let expected = r#"[{"jsonrpc":"2.0","result":"Hello World!","id":1},{"result":"Hello World!","error":null,"id":2}]"#;
    assert_eq!(io.handle_request(request, Meta(0)), Some(expected.to_string()));
}

#[test]
fn error_codes_match_the_reserved_values() {
    assert_eq!(ErrorCode::ParseError.code(), -32700);
    assert_eq!(ErrorCode::InvalidRequest.code(), -32600);
    assert_eq!(ErrorCode::MethodNotFound.code(), -32601);
    assert_eq!(ErrorCode::InvalidParams.code(), -32602);
    assert_eq!(ErrorCode::InternalError.code(), -32603);
    assert_eq!(ErrorCode::ServerError(-32000).code(), -32000);
}

struct EchoParams;

impl RpcMethod<Meta> for EchoParams {
    fn call(&self, params: Params, _meta: Meta) -> Result<JsonValue, Error> {
        match params {
            Params::Array(items) => Ok(JsonValue::Array(items)),
            Params::Named(entries) => Ok(JsonValue::Object(entries)),
            Params::Absent => Ok(JsonValue::Null),
        }
    }
}

#[test]
fn params_are_passed_positionally_and_named() {
    let mut io: MetaIoHandler<Meta, EchoParams, TestNotification, Noop> = MetaIoHandler::new();
    io.add_method_with_meta("echo", EchoParams);
    assert_eq!(
        io.handle_request(r#"{"jsonrpc": "2.0", "method": "echo", "params": [1, "x"], "id": 1}"#, Meta(0)),
        Some(r#"{"jsonrpc":"2.0","result":[1,"x"],"id":1}"#.to_string())
    );
    assert_eq!(
        io.handle_request(r#"{"jsonrpc": "2.0", "method": "echo", "params": {"a": true}, "id": 1}"#, Meta(0)),
        Some(r#"{"jsonrpc":"2.0","result":{"a":true},"id":1}"#.to_string())
    );
    assert_eq!(
        io.handle_request(r#"{"jsonrpc": "2.0", "method": "echo", "id": 1}"#, Meta(0)),
        Some(r#"{"jsonrpc":"2.0","result":null,"id":1}"#.to_string())
    );
    assert_eq!(
        io.handle_request(r#"{"jsonrpc": "2.0", "method": "echo", "params": null, "id": 1}"#, Meta(0)),
        Some(r#"{"jsonrpc":"2.0","result":null,"id":1}"#.to_string())
    );
}

#[test]
fn remote_procedure_kinds_have_a_textual_form() {
    let alias: RemoteProcedure<TestMethod, TestNotification> =
        RemoteProcedure::Alias("say_hello".to_string());
    assert_eq!(alias.kind_description(), "alias => \"say_hello\"");
    let tricky: RemoteProcedure<TestMethod, TestNotification> =
        RemoteProcedure::Alias("say\"hello\\".to_string());
    assert_eq!(tricky.kind_description(), "alias => \"say\\\"hello\\\\\"");
    let method: RemoteProcedure<TestMethod, TestNotification> =
        RemoteProcedure::Method(TestMethod::HelloWorld);
    assert_eq!(method.kind_description(), "<method>");
    let notification: RemoteProcedure<TestMethod, TestNotification> =
        RemoteProcedure::Notification(TestNotification(Arc::new(AtomicUsize::new(0))));
    assert_eq!(notification.kind_description(), "<notification>");
}

#[test]
fn standard_errors_carry_the_standard_messages() {
    let e = Error::new(ErrorCode::MethodNotFound);
    assert_eq!(e.message, "Method not found");
    assert_eq!(e.code.code(), -32601);
    assert!(e.data.is_none());
    assert_eq!(Error::parse_error().message, "Parse error");
    assert_eq!(Error::invalid_request().message, "Invalid request");
    assert_eq!(Error::invalid_params().message, "Invalid params");
    assert_eq!(Error::internal_error().message, "Internal error");
    assert_eq!(Error::method_not_found().message, "Method not found");
}

#[test]
fn nested_values_round_trip_through_the_engine() {
    let mut io: MetaIoHandler<Meta, EchoParams, TestNotification, Noop> = MetaIoHandler::new();
    io.add_method_with_meta("echo", EchoParams);
    let request =
        r#"{"jsonrpc": "2.0", "method": "echo", "params": [{"a": [1, 2, {"b": null}]}, "x", -7, true], "id": 1}"#;
    let expected = r#"{"jsonrpc":"2.0","result":[{"a":[1,2,{"b":null}]},"x",-7,true],"id":1}"#;
    assert_eq!(io.handle_request(request, Meta(0)), Some(expected.to_string()));
}

#[test]
fn numbers_outside_the_integer_model_are_rejected_as_parse_errors() {
    let io = hello_handler();
    let request = r#"{"jsonrpc": "2.0", "method": "say_hello", "params": [1.5], "id": 1}"#;
    let expected =
        r#"{"jsonrpc":"2.0","error":{"code":-32700,"message":"Parse error"},"id":null}"#;
    assert_eq!(io.handle_request(request, Meta(0)), Some(expected.to_string()));
}

#[test]
fn middleware_observes_and_rewrites_the_response() {
    let mut io: MetaIoHandler<Meta, TestMethod, TestNotification, RewriteResults> =
        MetaIoHandler::new();
    io.add_method_with_meta("say_hello", TestMethod::HelloWorld);
    io.add_middleware(RewriteResults);
    let request = r#"{"jsonrpc": "2.0", "method": "say_hello", "id": 1}"#;
    let expected = r#"{"jsonrpc":"2.0","result":"intercepted","id":1}"#;
    assert_eq!(io.handle_request(request, Meta(0)), Some(expected.to_string()));
}

#[test]
fn invalid_envelopes_never_reach_the_middleware() {
    let hits = Arc::new(AtomicUsize::new(0));
    let mut io: MetaIoHandler<Meta, TestMethod, TestNotification, CountCalls> =
        MetaIoHandler::new();
    io.add_middleware(CountCalls(hits.clone()));
    let expected =
        r#"{"jsonrpc":"2.0","error":{"code":-32600,"message":"Invalid request"},"id":null}"#;
    assert_eq!(io.handle_request("5", Meta(0)), Some(expected.to_string()));
    assert_eq!(hits.load(Ordering::SeqCst), 0);
    let request = r#"{"jsonrpc": "2.0", "method": "no_such_method", "id": 7}"#;
    io.handle_request(request, Meta(0));
    assert_eq!(hits.load(Ordering::SeqCst), 1);
}
