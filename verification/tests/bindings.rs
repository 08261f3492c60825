use serde_json::Value;
use std::sync::mpsc::{channel, Receiver, Sender};
use turbosheet::injection::bindings::{binding_outcome, BindingRegistry};

type Answer = Result<Value, String>;

fn oneshot() -> (Sender<Answer>, Receiver<Answer>) {
    channel()
}

/// Reads a binding message as the page sends it and hands its answer to
/// the waiting call, if any.
fn dispatch(reg: &mut BindingRegistry<Sender<Answer>>, payload: &str) {
    let Ok(msg) = serde_json::from_str::<Value>(payload) else { return };
    let Some(id) = msg.get("id").and_then(|v| v.as_str()) else { return };
    let ok = msg.get("ok").and_then(|v| v.as_bool());
    let data = msg.get("data").cloned();
    let error = msg.get("error").and_then(|v| v.as_str()).map(|s| s.to_string());
    if let Some((tx, answer)) = reg.dispatch(id, ok, data, error) {
        let _ = tx.send(answer.map(|d| d.unwrap_or_default()));
    }
}

#[test]
fn test_register_and_dispatch_ok() {
    let mut reg = BindingRegistry::new();
    let (tx, rx) = oneshot();
    reg.register("test-1", tx);
    assert_eq!(reg.pending_count(), 1);
    dispatch(&mut reg, r#"{"id":"test-1","ok":true,"data":{"value":42}}"#);
    let result = rx.try_recv().unwrap().unwrap();
    assert_eq!(result, serde_json::from_str::<Value>(r#"{"value": 42}"#).unwrap());
    assert_eq!(reg.pending_count(), 0);
}

#[test]
fn test_register_and_dispatch_error() {
    let mut reg = BindingRegistry::new();
    let (tx, rx) = oneshot();
    reg.register("test-err", tx);
    dispatch(&mut reg, r#"{"id":"test-err","ok":false,"error":"Something broke"}"#);
    let result = rx.try_recv().unwrap().unwrap_err();
    assert_eq!(result, "Something broke");
    assert_eq!(reg.pending_count(), 0);
}

#[test]
fn test_dispatch_unknown_id_does_not_crash() {
    let mut reg: BindingRegistry<Sender<Answer>> = BindingRegistry::new();
    dispatch(&mut reg, r#"{"id":"nonexistent","ok":true,"data":null}"#);
    assert_eq!(reg.pending_count(), 0);
}

#[test]
fn test_dispatch_invalid_json_does_not_crash() {
    let mut reg: BindingRegistry<Sender<Answer>> = BindingRegistry::new();
    dispatch(&mut reg, "not valid json");
    assert_eq!(reg.pending_count(), 0);
}

#[test]
fn test_dispatch_missing_fields_does_not_crash() {
    let mut reg: BindingRegistry<Sender<Answer>> = BindingRegistry::new();
    dispatch(&mut reg, r#"{"id":"x"}"#);
    assert_eq!(reg.pending_count(), 0);
}

#[test]
fn test_remove_cleans_up_entry() {
    let mut reg = BindingRegistry::new();
    let (tx, _rx) = oneshot();
    reg.register("to-remove", tx);
    assert_eq!(reg.pending_count(), 1);
    assert!(reg.remove("to-remove"));
    assert_eq!(reg.pending_count(), 0);
    assert!(!reg.remove("to-remove"));
}

#[test]
fn test_register_replaces_existing_id() {
    let mut reg = BindingRegistry::new();
    let (tx1, _rx1) = oneshot();
    let (tx2, rx2) = oneshot();
    reg.register("same-id", tx1);
    assert_eq!(reg.pending_count(), 1);
    reg.register("same-id", tx2);
    assert_eq!(reg.pending_count(), 1);
    dispatch(&mut reg, r#"{"id":"same-id","ok":true,"data":true}"#);
    let result = rx2.try_recv().unwrap().unwrap();
    assert_eq!(result, Value::Bool(true));
    assert_eq!(reg.pending_count(), 0);
}

#[test]
fn test_concurrent_dispatch() {
    let mut reg = BindingRegistry::new();
    let count = 10;
    let mut receivers = Vec::with_capacity(count);
    for i in 0..count {
        let (tx, rx) = oneshot();
        let id = format!("concurrent-{}", i);
        reg.register(&id, tx);
        receivers.push((id, rx));
    }
    assert_eq!(reg.pending_count(), count);
    for (id, _) in receivers.iter().rev() {
        let payload = format!(r#"{{"id":"{}","ok":true,"data":"{}"}}"#, id, id);
        dispatch(&mut reg, &payload);
    }
    assert_eq!(reg.pending_count(), 0);
    for (id, rx) in receivers {
        let result = rx.try_recv().unwrap().unwrap();
        assert_eq!(result, Value::String(id));
    }
}

#[test]
fn outcome_without_error_text() {
    assert_eq!(binding_outcome::<u8>(None, Some(1), None), Err("Unknown error from injected script".to_string()));
    assert_eq!(binding_outcome::<u8>(Some(false), Some(1), None), Err("Unknown error from injected script".to_string()));
    assert_eq!(binding_outcome::<u8>(Some(true), None, Some("ignored".to_string())), Ok(None));
}
