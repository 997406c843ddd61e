//! Transport-agnostic JSON-RPC request-dispatch engine.
//!
//! Raw request text is decoded, validated against the protocol rules,
//! routed through a middleware chain to a registry of named procedures,
//! and the results are assembled into well-formed response text.  The
//! engine never performs I/O itself: a transport feeds text in and sends
//! the produced text back.

pub mod types;
pub mod json;
pub mod calls;
pub mod middleware;
pub mod io;
pub mod laws;

pub use crate::calls::{
    Metadata, NoMeta, RemoteProcedure, RpcMethod, RpcMethodSimple, RpcNotification,
    RpcNotificationSimple, SimpleMethod, SimpleNotification,
};
pub use crate::io::{IoHandler, MetaIoHandler};
pub use crate::middleware::{Middleware, MiddlewareAction, Noop as NoopMiddleware};
pub use crate::types::{
    Call, Compatibility, Error, ErrorCode, Id, JsonValue, Output, Params, Version,
};
