use state_device::access::AccessLevel;
use state_device::dispatch::{
    change_signal, dispatch, handle_call, resolve, run_getter, run_setter, ChangeSignal, Reply, RpcError,
};
use state_device::node::{find_method, method_table, node_at, MethodKind, Node};
use state_device::store::StateStore;
use state_device::value::{param_to_i32, param_to_text, Value};

fn number_signal(v: i64) -> Option<ChangeSignal> {
    Some(ChangeSignal {
        path: "state/number".to_string(),
        signal: "chng".to_string(),
        value: Value::Int(v),
    })
}

fn text_signal(t: &str) -> Option<ChangeSignal> {
    Some(ChangeSignal {
        path: "state/text".to_string(),
        signal: "chng".to_string(),
        value: Value::Str(t.to_string()),
    })
}

#[test]
fn scenario_number_and_text() {
    let mut st = StateStore::new();
    assert_eq!(st.get_number(), 0);
    assert_eq!(st.get_text(), "");

    let r = dispatch(&mut st, "state/number", "set", &Value::Int(5), AccessLevel::Write);
    assert_eq!(r, Reply { result: Ok(Value::Bool(true)), signal: number_signal(5) });
    let r = dispatch(&mut st, "state/number", "get", &Value::Null, AccessLevel::Read);
    assert_eq!(r, Reply { result: Ok(Value::Int(5)), signal: None });

    let hi = Value::Str("hi".to_string());
    let r = dispatch(&mut st, "state/text", "set", &hi, AccessLevel::Write);
    assert_eq!(r, Reply { result: Ok(Value::Bool(true)), signal: text_signal("hi") });
    let r = dispatch(&mut st, "state/text", "set", &hi, AccessLevel::Write);
    assert_eq!(r, Reply { result: Ok(Value::Bool(true)), signal: None });

    let r = dispatch(&mut st, "state/number", "get", &Value::Null, AccessLevel::Read);
    assert_eq!(r.result, Ok(Value::Int(5)));
    let r = dispatch(&mut st, "state/text", "get", &Value::Null, AccessLevel::Read);
    assert_eq!(r.result, Ok(Value::Str("hi".to_string())));
}

#[test]
fn distinct_number_sets_signal_twice() {
    let mut st = StateStore::new();
    let r1 = dispatch(&mut st, "state/number", "set", &Value::Int(3), AccessLevel::Write);
    let r2 = dispatch(&mut st, "state/number", "set", &Value::Int(-4), AccessLevel::Write);
    assert_eq!(r1.signal, number_signal(3));
    assert_eq!(r2.signal, number_signal(-4));
    assert_eq!(st.get_number(), -4);
}

#[test]
fn repeated_number_set_signals_once() {
    let mut st = StateStore::new();
    let r1 = dispatch(&mut st, "state/number", "set", &Value::Int(9), AccessLevel::Write);
    let r2 = dispatch(&mut st, "state/number", "set", &Value::Int(9), AccessLevel::Write);
    assert_eq!(r1, Reply { result: Ok(Value::Bool(true)), signal: number_signal(9) });
    assert_eq!(r2, Reply { result: Ok(Value::Bool(true)), signal: None });
}

#[test]
fn setting_the_current_number_sends_no_signal() {
    let mut st = StateStore::new();
    let r = dispatch(&mut st, "state/number", "set", &Value::Int(0), AccessLevel::Write);
    assert_eq!(r, Reply { result: Ok(Value::Bool(true)), signal: None });
}

#[test]
fn unmounted_path_is_method_not_found() {
    let mut st = StateStore::new();
    let r = dispatch(&mut st, "state/other", "get", &Value::Null, AccessLevel::Superuser);
    assert_eq!(r, Reply { result: Err(RpcError::MethodNotFound), signal: None });
    let r = dispatch(&mut st, "", "set", &Value::Int(1), AccessLevel::Superuser);
    assert_eq!(r.result, Err(RpcError::MethodNotFound));
    assert_eq!(st.get_number(), 0);
}

#[test]
fn unknown_method_is_method_not_found() {
    let mut st = StateStore::new();
    let r = dispatch(&mut st, "state/text", "reset", &Value::Null, AccessLevel::Superuser);
    assert_eq!(r, Reply { result: Err(RpcError::MethodNotFound), signal: None });
}

#[test]
fn set_below_write_is_permission_denied() {
    let mut st = StateStore::new();
    let r = dispatch(&mut st, "state/number", "set", &Value::Int(5), AccessLevel::Read);
    assert_eq!(r, Reply { result: Err(RpcError::PermissionDenied), signal: None });
    let r = dispatch(&mut st, "state/text", "set", &Value::Str("x".to_string()), AccessLevel::Browse);
    assert_eq!(r, Reply { result: Err(RpcError::PermissionDenied), signal: None });
    assert_eq!(st.get_number(), 0);
    assert_eq!(st.get_text(), "");
}

#[test]
fn get_below_read_is_permission_denied() {
    let mut st = StateStore::new();
    let r = dispatch(&mut st, "state/number", "get", &Value::Null, AccessLevel::Browse);
    assert_eq!(r.result, Err(RpcError::PermissionDenied));
}

#[test]
fn set_above_write_is_allowed() {
    let mut st = StateStore::new();
    let r = dispatch(&mut st, "state/number", "set", &Value::UInt(12), AccessLevel::Superuser);
    assert_eq!(r.signal, number_signal(12));
    assert_eq!(st.get_number(), 12);
}

#[test]
fn non_integer_number_is_invalid_parameter() {
    let mut st = StateStore::new();
    for p in [Value::Str("5".to_string()), Value::Null, Value::Bool(true), Value::Other] {
        let r = dispatch(&mut st, "state/number", "set", &p, AccessLevel::Write);
        assert_eq!(r, Reply { result: Err(RpcError::InvalidParameter), signal: None });
    }
    assert_eq!(st.get_number(), 0);
}

#[test]
fn out_of_range_number_is_invalid_parameter() {
    let mut st = StateStore::new();
    for p in [Value::Int(2147483648), Value::Int(-2147483649), Value::UInt(2147483648)] {
        let r = dispatch(&mut st, "state/number", "set", &p, AccessLevel::Write);
        assert_eq!(r.result, Err(RpcError::InvalidParameter));
    }
    assert_eq!(st.get_number(), 0);
}

#[test]
fn non_string_text_is_invalid_parameter() {
    let mut st = StateStore::new();
    let r = dispatch(&mut st, "state/text", "set", &Value::Int(1), AccessLevel::Write);
    assert_eq!(r, Reply { result: Err(RpcError::InvalidParameter), signal: None });
    assert_eq!(st.get_text(), "");
}

#[test]
fn decode_integer_bounds() {
    assert_eq!(param_to_i32(&Value::Int(-2147483648)), Some(i32::MIN));
    assert_eq!(param_to_i32(&Value::Int(2147483647)), Some(i32::MAX));
    assert_eq!(param_to_i32(&Value::UInt(2147483647)), Some(i32::MAX));
    assert_eq!(param_to_i32(&Value::UInt(0)), Some(0));
    assert_eq!(param_to_i32(&Value::Int(2147483648)), None);
    assert_eq!(param_to_i32(&Value::UInt(u64::MAX)), None);
    assert_eq!(param_to_text(&Value::Str("ab".to_string())), Some("ab".to_string()));
    assert_eq!(param_to_text(&Value::Null), None);
}

#[test]
fn store_setters_report_change() {
    let mut st = StateStore::new();
    assert!(st.set_number(1));
    assert!(!st.set_number(1));
    assert!(st.set_text("a".to_string()));
    assert!(!st.set_text("a".to_string()));
    assert!(st.set_text(String::new()));
    assert_eq!(st.get_number(), 1);
    assert_eq!(st.get_text(), "");
}

#[test]
fn access_levels_are_ordered() {
    assert!(AccessLevel::Write.satisfies(AccessLevel::Read));
    assert!(AccessLevel::Write.satisfies(AccessLevel::Write));
    assert!(!AccessLevel::Read.satisfies(AccessLevel::Write));
    assert!(!AccessLevel::Browse.satisfies(AccessLevel::Read));
    assert_eq!(AccessLevel::Superuser.rank(), 63);
    assert_eq!(AccessLevel::Command.rank(), 24);
}

#[test]
fn routing_and_method_table() {
    assert_eq!(node_at("state/number"), Some(Node::Number));
    assert_eq!(node_at("state/text"), Some(Node::Text));
    assert_eq!(node_at("state"), None);
    assert_eq!(Node::Text.path(), "state/text");
    let t = method_table();
    let set = find_method(&t, "set").unwrap();
    assert_eq!(set.kind, MethodKind::Setter);
    assert_eq!(set.access, AccessLevel::Write);
    let get = find_method(&t, "get").unwrap();
    assert_eq!(get.kind, MethodKind::Getter);
    assert_eq!(get.access, AccessLevel::Read);
    assert!(find_method(&t, "ls").is_none());
}

#[test]
fn handle_call_on_text_node() {
    let mut st = StateStore::new();
    let r = handle_call(&mut st, Node::Text, "set", &Value::Str("x".to_string()), AccessLevel::Write);
    assert_eq!(r.signal, text_signal("x"));
    let r = handle_call(&mut st, Node::Text, "get", &Value::Null, AccessLevel::Read);
    assert_eq!(r.result, Ok(Value::Str("x".to_string())));
}

#[test]
fn change_signal_carries_path_and_name() {
    let s = change_signal(Node::Number, Value::Int(7));
    assert_eq!(s.path, "state/number");
    assert_eq!(s.signal, "chng");
    assert_eq!(s.value, Value::Int(7));
}

#[test]
fn resolve_checks_table_and_access() {
    assert_eq!(resolve("get", AccessLevel::Read), Ok(MethodKind::Getter));
    assert_eq!(resolve("set", AccessLevel::Write), Ok(MethodKind::Setter));
    assert_eq!(resolve("set", AccessLevel::Read), Err(RpcError::PermissionDenied));
    assert_eq!(resolve("get", AccessLevel::Browse), Err(RpcError::PermissionDenied));
    assert_eq!(resolve("Get", AccessLevel::Superuser), Err(RpcError::MethodNotFound));
    assert_eq!(resolve("", AccessLevel::Superuser), Err(RpcError::MethodNotFound));
}

#[test]
fn getter_and_setter_run_directly() {
    let mut st = StateStore::new();
    assert_eq!(run_getter(&st, Node::Number), Value::Int(0));
    assert_eq!(run_getter(&st, Node::Text), Value::Str(String::new()));
    let r = run_setter(&mut st, Node::Number, &Value::Int(-1));
    assert_eq!(r, Reply { result: Ok(Value::Bool(true)), signal: number_signal(-1) });
    let r = run_setter(&mut st, Node::Text, &Value::Str("z".to_string()));
    assert_eq!(r, Reply { result: Ok(Value::Bool(true)), signal: text_signal("z") });
    let r = run_setter(&mut st, Node::Text, &Value::Str("z".to_string()));
    assert_eq!(r, Reply { result: Ok(Value::Bool(true)), signal: None });
    assert_eq!(run_getter(&st, Node::Number), Value::Int(-1));
    assert_eq!(run_getter(&st, Node::Text), Value::Str("z".to_string()));
}

#[test]
fn text_read_returns_last_write_whole() {
    let mut st = StateStore::new();
    dispatch(&mut st, "state/number", "set", &Value::Int(3), AccessLevel::Write);
    for t in ["first", "a much longer second text", "", "x"] {
        dispatch(&mut st, "state/text", "set", &Value::Str(t.to_string()), AccessLevel::Write);
    }
    let r = dispatch(&mut st, "state/text", "get", &Value::Null, AccessLevel::Read);
    assert_eq!(r.result, Ok(Value::Str("x".to_string())));
    assert_eq!(st.get_number(), 3);
}
