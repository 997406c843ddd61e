//! The capability layer: what can be registered under a name.  Any unit of
//! behaviour with the right shape may serve as a method or a notification;
//! the engine imposes no base type beyond these traits.

use vstd::prelude::*;
use crate::types::{Error, JsonValue, Params};

verus! {

/// Opaque per-invocation context (per-connection identity and the like).
/// The engine never inspects it; it is cloned, never shared mutably, to
/// every capability invoked while processing one top-level call.
pub trait Metadata: Clone + Send + 'static {

}

/// The empty context, for handlers whose capabilities take none.  It stands
/// in for the unit type, whose built-in `Clone` the verifier gives no
/// specification and so refuses as a `Metadata`.
#[derive(Clone, Copy, PartialEq, Eq, Structural)]
pub struct NoMeta;

impl Metadata for NoMeta {

}

impl<T: Metadata> Metadata for Option<T> {

}

impl<T: Metadata> Metadata for Box<T> {

}

/// A method: invoked with parameters and context, resolves exactly once to
/// a value or to a protocol error.
pub trait RpcMethod<T: Metadata>: Send + Sync + 'static {
    /// Invoke the method.
    fn call(&self, params: Params, meta: T) -> Result<JsonValue, Error>;
}

/// A method that takes no context.
pub trait RpcMethodSimple: Send + Sync + 'static {
    /// Invoke the method.
    fn call(&self, params: Params) -> Result<JsonValue, Error>;
}

/// A notification: invoked for its side effect, nothing observable returns
/// to the caller.
pub trait RpcNotification<T: Metadata>: Send + Sync + 'static {
    /// Execute the notification.
    fn execute(&self, params: Params, meta: T);
}

/// A notification that takes no context.
pub trait RpcNotificationSimple: Send + Sync + 'static {
    /// Execute the notification.
    fn execute(&self, params: Params);
}

/// A context-free method lifted to the context-carrying shape: the context
/// is accepted and dropped.
pub struct SimpleMethod<F>(pub F);

impl<T: Metadata, F: RpcMethodSimple> RpcMethod<T> for SimpleMethod<F> {
    fn call(&self, params: Params, _meta: T) -> Result<JsonValue, Error> {
        self.0.call(params)
    }
}

/// A context-free notification lifted to the context-carrying shape.
pub struct SimpleNotification<F>(pub F);

impl<T: Metadata, F: RpcNotificationSimple> RpcNotification<T> for SimpleNotification<F> {
    fn execute(&self, params: Params, _meta: T) {
        self.0.execute(params)
    }
}

/// A named registry entry: an invocable method, an invocable notification,
/// or an alias redirecting to another name, resolved at dispatch time.
pub enum RemoteProcedure<F, N> {
    /// A method call.
    Method(F),
    /// A notification.
    Notification(N),
    /// An alias to another method.
    Alias(String),
}

/// Mathematical model of a registry entry: the capability itself is opaque,
/// only its kind (and an alias's target) is visible to contracts.
pub enum ProcedureView {
    /// A method call.
    Method,
    /// A notification.
    Notification,
    /// An alias to another name.
    Alias(Seq<char>),
}

/// A character as it stands inside a quoted rendering: quotes and
/// backslashes get a backslash in front, everything else stands unchanged.
pub open spec fn escape_char(c: char) -> Seq<char> {
    if c == '"' || c == '\\' {
        seq!['\\', c]
    } else {
        seq![c]
    }
}

/// A string as it stands inside a quoted rendering, characterwise.
pub open spec fn quoted_escaped(s: Seq<char>) -> Seq<char>
    decreases s.len(),
{
    if s.len() == 0 {
        Seq::empty()
    } else {
        escape_char(s[0]) + quoted_escaped(s.subrange(1, s.len() as int))
    }
}

/// Escaping one more character extends the escaped text.
proof fn lemma_quoted_escaped_snoc(s: Seq<char>, c: char)
    ensures
        quoted_escaped(s.push(c)) == quoted_escaped(s) + escape_char(c),
    decreases s.len(),
{
    let s2 = s.push(c);
    if s.len() == 0 {
        assert(quoted_escaped(Seq::<char>::empty()) == Seq::<char>::empty());
        assert(s =~= Seq::<char>::empty());
        assert(s2[0] == c);
        assert(s2.subrange(1, s2.len() as int) =~= Seq::<char>::empty());
        assert(quoted_escaped(s.push(c)) =~= quoted_escaped(s) + escape_char(c));
    } else {
        lemma_quoted_escaped_snoc(s.subrange(1, s.len() as int), c);
        assert(s2.subrange(1, s2.len() as int) =~= s.subrange(1, s.len() as int).push(c));
        assert(quoted_escaped(s.push(c)) =~= quoted_escaped(s) + escape_char(c));
    }
}

/// Escapes quotes and backslashes in `s` for a quoted rendering; other
/// characters stand unchanged.
fn escape_quoted(s: &str) -> (r: String)
    ensures
        r@ == quoted_escaped(s@),
{
    let n = s.unicode_len();
    let mut out = String::new();
    let backslash = String::from_str("\\");
    let mut i: usize = 0;
    proof {
        assert(s@.subrange(0, 0) =~= Seq::<char>::empty());
    }
    while i < n
        invariant
            n == s@.len(),
            i <= n,
            backslash@ == "\\"@,
            out@ == quoted_escaped(s@.subrange(0, i as int)),
        decreases n - i,
    {
        let ghost prefix = s@.subrange(0, i as int);
        let c = s.get_char(i);
        let piece = s.substring_char(i, i + 1);
        proof {
            reveal_strlit("\\");
            lemma_quoted_escaped_snoc(prefix, c);
            assert(s@.subrange(0, i as int + 1) =~= prefix.push(c));
            assert(piece@ =~= seq![c]);
        }
        if c == '"' || c == '\\' {
            out.append(backslash.as_str());
        }
        out.append(piece);
        i += 1;
        proof {
            assert(out@ =~= quoted_escaped(s@.subrange(0, i as int)));
        }
    }
    proof {
        assert(s@.subrange(0, n as int) =~= s@);
    }
    out
}

impl<F, N> RemoteProcedure<F, N> {
    /// A short rendering of the entry's kind — capabilities themselves have
    /// no textual form, an alias shows its target in quotes, with quotes
    /// and backslashes inside it escaped.
    pub fn kind_description(&self) -> (d: String)
        ensures
            d@ == (match self.deep_view() {
                ProcedureView::Method => "<method>"@,
                ProcedureView::Notification => "<notification>"@,
                ProcedureView::Alias(target) => "alias => \""@ + quoted_escaped(target) + "\""@,
            }),
    {
        match self {
            RemoteProcedure::Method(_) => String::from_str("<method>"),
            RemoteProcedure::Notification(_) => String::from_str("<notification>"),
            RemoteProcedure::Alias(name) => {
                let escaped = escape_quoted(name.as_str());
                let d = String::from_str("alias => \"").concat(escaped.as_str()).concat("\"");
                proof {
                    assert(d@ =~= "alias => \""@ + quoted_escaped(name@) + "\""@);
                }
                d
            },
        }
    }
}

impl<F, N> DeepView for RemoteProcedure<F, N> {
    type V = ProcedureView;

    open spec fn deep_view(&self) -> ProcedureView {
        match self {
            RemoteProcedure::Method(_) => ProcedureView::Method,
            RemoteProcedure::Notification(_) => ProcedureView::Notification,
            RemoteProcedure::Alias(name) => ProcedureView::Alias(name@),
        }
    }
}

} // verus!
