use vstd::prelude::*;
use crate::access::AccessLevel;
use crate::node::{
    MethodKind, Node, find_method, lemma_table_lookup, method_table, node_at, spec_lookup,
    spec_node_at, spec_table,
};
use crate::store::{StateStore, StoreState};
use crate::value::{Value, ValueModel, decode_i32, decode_text, param_to_i32, param_to_text};

verus! {

/// The errors that a call can end in. Each is the call's reply, never fatal.
#[derive(Clone, Copy, Debug, PartialEq, Eq, Structural)]
pub enum RpcError {
    MethodNotFound,
    PermissionDenied,
    InvalidParameter,
}

/// A notification that a node's value changed.
#[derive(Debug, PartialEq)]
pub struct ChangeSignal {
    pub path: String,
    pub signal: String,
    pub value: Value,
}

/// The mathematical model of a [`ChangeSignal`].
pub struct SignalModel {
    pub path: Seq<char>,
    pub signal: Seq<char>,
    pub value: ValueModel,
}

impl View for ChangeSignal {
    type V = SignalModel;

    open spec fn view(&self) -> SignalModel {
        SignalModel { path: self.path@, signal: self.signal@, value: self.value@ }
    }
}

/// What a call hands back: its result, and the change signal to send, if any.
#[derive(Debug, PartialEq)]
pub struct Reply {
    pub result: Result<Value, RpcError>,
    pub signal: Option<ChangeSignal>,
}

/// The mathematical model of a [`Reply`].
pub struct ReplyModel {
    pub result: Result<ValueModel, RpcError>,
    pub signal: Option<SignalModel>,
}

impl View for Reply {
    type V = ReplyModel;

    open spec fn view(&self) -> ReplyModel {
        ReplyModel {
            result: match self.result {
                Ok(v) => Ok(v@),
                Err(e) => Err(e),
            },
            signal: match self.signal {
                Some(s) => Some(s@),
                None => None,
            },
        }
    }
}

/// The name of the signal that tells of a change.
pub open spec fn spec_chng() -> Seq<char> {
    "chng"@
}

/// The change signal of `node` carrying `value`.
pub open spec fn spec_signal(node: Node, value: ValueModel) -> SignalModel {
    SignalModel { path: node.spec_path(), signal: spec_chng(), value }
}

pub open spec fn error_reply(e: RpcError) -> ReplyModel {
    ReplyModel { result: Err(e), signal: None }
}

/// The reply of a setter: `true`, with a signal only where the value changed.
pub open spec fn set_reply(node: Node, changed: bool, value: ValueModel) -> ReplyModel {
    ReplyModel {
        result: Ok(ValueModel::Bool(true)),
        signal: if changed { Some(spec_signal(node, value)) } else { None },
    }
}

/// The value that the getter of `node` returns in state `s`.
pub open spec fn spec_get(s: StoreState, node: Node) -> ValueModel {
    match node {
        Node::Number => ValueModel::Int(s.number as int),
        Node::Text => ValueModel::Str(s.text),
    }
}

/// The setter of `node`: the new state and the reply.
pub open spec fn spec_set(s: StoreState, node: Node, param: ValueModel) -> (StoreState, ReplyModel) {
    match node {
        Node::Number => match decode_i32(param) {
            None => (s, error_reply(RpcError::InvalidParameter)),
            Some(v) => (
                StoreState { number: v, text: s.text },
                set_reply(node, s.number != v, ValueModel::Int(v as int)),
            ),
        },
        Node::Text => match decode_text(param) {
            None => (s, error_reply(RpcError::InvalidParameter)),
            Some(t) => (
                StoreState { number: s.number, text: t },
                set_reply(node, s.text != t, ValueModel::Str(t)),
            ),
        },
    }
}

/// How the method table resolves `method` for a caller granted `granted`:
/// the kind of the method, or why it is not invoked.
pub open spec fn spec_resolve(method: Seq<char>, granted: AccessLevel) -> Result<MethodKind, RpcError> {
    match spec_lookup(spec_table(), method) {
        None => Err(RpcError::MethodNotFound),
        Some(m) => if granted.spec_satisfies(m.access) {
            Ok(m.kind)
        } else {
            Err(RpcError::PermissionDenied)
        },
    }
}

/// A call of `method` on `node` by a caller granted `granted`, in state `s`:
/// the new state and the reply.
pub open spec fn spec_call(
    s: StoreState,
    node: Node,
    method: Seq<char>,
    param: ValueModel,
    granted: AccessLevel,
) -> (StoreState, ReplyModel) {
    match spec_resolve(method, granted) {
        Err(e) => (s, error_reply(e)),
        Ok(MethodKind::Getter) => (s, ReplyModel { result: Ok(spec_get(s, node)), signal: None }),
        Ok(MethodKind::Setter) => spec_set(s, node, param),
    }
}

/// A call addressed to `path`: a path that no node is mounted at ends in
/// `MethodNotFound`.
pub open spec fn spec_dispatch(
    s: StoreState,
    path: Seq<char>,
    method: Seq<char>,
    param: ValueModel,
    granted: AccessLevel,
) -> (StoreState, ReplyModel) {
    match spec_node_at(path) {
        None => (s, error_reply(RpcError::MethodNotFound)),
        Some(node) => spec_call(s, node, method, param, granted),
    }
}

/// Builds the change signal of `node` carrying `value`.
pub fn change_signal(node: Node, value: Value) -> (r: ChangeSignal)
    ensures
        r@ == spec_signal(node, value@),
{
    ChangeSignal { path: node.path().to_owned(), signal: "chng".to_owned(), value }
}

fn error(e: RpcError) -> (r: Reply)
    ensures
        r@ == error_reply(e),
{
    Reply { result: Err(e), signal: None }
}

/// Resolves `method` in the method table and checks the caller's access.
pub fn resolve(method: &str, granted: AccessLevel) -> (r: Result<MethodKind, RpcError>)
    ensures
        r == spec_resolve(method@, granted),
{
    let table = method_table();
    match find_method(&table, method) {
        None => Err(RpcError::MethodNotFound),
        Some(m) => {
            if granted.satisfies(m.access) {
                Ok(m.kind)
            } else {
                Err(RpcError::PermissionDenied)
            }
        },
    }
}

/// The getter of `node`: the value held.
pub fn run_getter(store: &StateStore, node: Node) -> (r: Value)
    ensures
        r@ == spec_get(store@, node),
{
    match node {
        Node::Number => Value::Int(store.get_number() as i64),
        Node::Text => Value::Str(store.get_text()),
    }
}

/// The setter of `node`: decodes `param`, stores it, and hands back `true`
/// with a change signal only where the value changed.
pub fn run_setter(store: &mut StateStore, node: Node, param: &Value) -> (r: Reply)
    ensures
        (final(store)@, r@) == spec_set(old(store)@, node, param@),
{
    match node {
        Node::Number => match param_to_i32(param) {
            None => error(RpcError::InvalidParameter),
            Some(v) => {
                let changed = store.set_number(v);
                let signal = if changed {
                    Some(change_signal(node, Value::Int(v as i64)))
                } else {
                    None
                };
                Reply { result: Ok(Value::Bool(true)), signal }
            },
        },
        Node::Text => match param_to_text(param) {
            None => error(RpcError::InvalidParameter),
            Some(t) => {
                let payload = t.clone();
                let changed = store.set_text(t);
                let signal = if changed {
                    Some(change_signal(node, Value::Str(payload)))
                } else {
                    None
                };
                Reply { result: Ok(Value::Bool(true)), signal }
            },
        },
    }
}

/// Calls `method` on `node` for a caller granted `granted`.
pub fn handle_call(
    store: &mut StateStore,
    node: Node,
    method: &str,
    param: &Value,
    granted: AccessLevel,
) -> (r: Reply)
    ensures
        (final(store)@, r@) == spec_call(old(store)@, node, method@, param@, granted),
{
    match resolve(method, granted) {
        Err(e) => error(e),
        Ok(MethodKind::Getter) => Reply { result: Ok(run_getter(store, node)), signal: None },
        Ok(MethodKind::Setter) => run_setter(store, node, param),
    }
}

/// Routes a call addressed to `path` to the node mounted there.
pub fn dispatch(
    store: &mut StateStore,
    path: &str,
    method: &str,
    param: &Value,
    granted: AccessLevel,
) -> (r: Reply)
    ensures
        (final(store)@, r@) == spec_dispatch(old(store)@, path@, method@, param@, granted),
        spec_node_at(path@) is None ==> r.result == Err::<Value, RpcError>(RpcError::MethodNotFound)
            && r.signal is None && final(store)@ == old(store)@,
        spec_node_at(path@) is Some && method@ == "set"@ && !granted.spec_satisfies(AccessLevel::Write)
            ==> r.result == Err::<Value, RpcError>(RpcError::PermissionDenied) && r.signal is None
            && final(store)@ == old(store)@,
        spec_node_at(path@) == Some(Node::Number) && method@ == "set"@ && granted.spec_satisfies(
            AccessLevel::Write,
        ) && decode_i32(param@) is None ==> r.result == Err::<Value, RpcError>(
            RpcError::InvalidParameter,
        ) && r.signal is None && final(store)@ == old(store)@,
{
    proof {
        lemma_table_lookup();
    }
    match node_at(path) {
        None => error(RpcError::MethodNotFound),
        Some(node) => handle_call(store, node, method, param, granted),
    }
}

} // verus!
