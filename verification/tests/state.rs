use ag_ui::server::error::StateError;
use ag_ui::server::state::{StateManager, StatePatch};
use json_patch::jsonptr::PointerBuf;
use json_patch::{AddOperation, MoveOperation, PatchOperation, ReplaceOperation};
use serde_json::Value;

fn json(text: &str) -> Value {
    serde_json::from_str(text).expect("valid JSON")
}

fn patched(before: &Value, patch: &StatePatch) -> Value {
    let mut doc = before.clone();
    json_patch::patch(&mut doc, patch.operations()).expect("patch applies");
    doc
}

#[test]
fn new_and_snapshot() {
    let manager = StateManager::new(json(r#"{"key": "value"}"#));
    let snapshot = manager.snapshot();
    assert_eq!(snapshot, json(r#"{"key": "value"}"#));
}

#[test]
fn read_state() {
    let manager = StateManager::new(json(r#"{"count": 42}"#));
    let count = manager.read(|s| s["count"].as_i64().unwrap_or(0));
    assert_eq!(count, 42);
}

#[test]
fn update_generates_patch() {
    let mut manager = StateManager::new(json(r#"{"count": 0}"#));

    let patch = manager
        .update(|mut s| {
            s["count"] = Value::from(1);
            s
        })
        .expect("update should succeed");

    assert_eq!(patch.len(), 1);
    assert_eq!(manager.read(|s| s["count"].as_i64().unwrap_or(0)), 1);
}

#[test]
fn update_add_field_generates_add_op() {
    let mut manager = StateManager::new(json("{}"));

    let patch = manager
        .update(|mut s| {
            s["new_field"] = Value::from("new_value");
            s
        })
        .expect("update should succeed");

    assert!(!patch.is_empty());

    let ops = patch.operations();
    assert!(ops
        .iter()
        .any(|op| matches!(op, PatchOperation::Add(_) | PatchOperation::Replace(_))));
}

#[test]
fn update_nested_value() {
    let mut manager = StateManager::new(json(r#"{"user": {"name": "Alice", "age": 30}}"#));

    let patch = manager
        .update(|mut s| {
            s["user"]["age"] = Value::from(31);
            s
        })
        .expect("update should succeed");

    assert!(!patch.is_empty());
    assert_eq!(manager.read(|s| s["user"]["age"].as_i64().unwrap_or(0)), 31);
}

#[test]
fn update_array() {
    let mut manager = StateManager::new(json(r#"{"items": []}"#));

    let patch = manager
        .update(|mut s| {
            s["items"]
                .as_array_mut()
                .expect("items should be an array")
                .push(Value::from("item1"));
            s
        })
        .expect("update should succeed");

    assert!(!patch.is_empty());

    let items = manager.read(|s| s["items"].as_array().unwrap().len());
    assert_eq!(items, 1);
}

#[test]
fn replace_state() {
    let mut manager = StateManager::new(json(r#"{"old": true}"#));

    let patch = manager
        .replace(json(r#"{"new": true}"#))
        .expect("replace should succeed");

    assert!(!patch.is_empty());
    assert!(manager.read(|s| s["new"].as_bool().unwrap_or(false)));
    assert!(manager.read(|s| s.get("old").is_none()));
}

#[test]
fn update_if_predicate_true() {
    let mut manager = StateManager::new(json(r#"{"count": 5}"#));

    let result = manager
        .update_if(
            |s| s["count"].as_i64().unwrap_or(0) < 10,
            |mut s| {
                s["count"] = Value::from(6);
                s
            },
        )
        .expect("update should succeed");

    assert!(result.is_some());
    assert_eq!(manager.read(|s| s["count"].as_i64().unwrap_or(0)), 6);
}

#[test]
fn update_if_predicate_false() {
    let mut manager = StateManager::new(json(r#"{"count": 15}"#));

    let result = manager
        .update_if(
            |s| s["count"].as_i64().unwrap_or(0) < 10,
            |mut s| {
                s["count"] = Value::from(16);
                s
            },
        )
        .expect("update should succeed");

    assert!(result.is_none());
    assert_eq!(manager.read(|s| s["count"].as_i64().unwrap_or(0)), 15);
}

#[test]
fn apply_patch_success() {
    let mut manager = StateManager::new(json(r#"{"x": 1}"#));

    let patch = vec![PatchOperation::Replace(ReplaceOperation {
        path: PointerBuf::parse("/x").expect("valid pointer"),
        value: Value::from(2),
    })];

    manager.apply_patch(&patch).expect("patch should apply");
    assert_eq!(manager.read(|s| s["x"].as_i64().unwrap_or(0)), 2);
}

#[test]
fn apply_patch_add_field() {
    let mut manager = StateManager::new(json("{}"));

    let patch = vec![PatchOperation::Add(AddOperation {
        path: PointerBuf::parse("/new").expect("valid pointer"),
        value: Value::from("value"),
    })];

    manager.apply_patch(&patch).expect("patch should apply");
    assert_eq!(
        manager.read(|s| s["new"].as_str().unwrap_or("").to_string()),
        "value"
    );
}

#[test]
fn empty_update_empty_patch() {
    let mut manager = StateManager::new(json(r#"{"x": 1}"#));

    let patch = manager.update(|s| s).expect("update should succeed");

    assert!(patch.is_empty());
}

#[test]
fn state_patch_serialize() {
    let mut manager = StateManager::new(json(r#"{"x": 1}"#));

    let patch = manager
        .update(|mut s| {
            s["x"] = Value::from(2);
            s
        })
        .expect("update should succeed");

    let json = serde_json::to_string(patch.operations()).expect("serialization should succeed");
    assert!(json.contains("replace") || json.contains("add"));
    assert!(json.contains("/x"));
}

#[test]
fn default_state_manager() {
    let manager = StateManager::default();
    let snapshot = manager.snapshot();
    assert_eq!(snapshot, serde_json::Value::Null);
}

#[test]
fn patch_of_an_update_turns_before_into_after() {
    let before = json(r#"{"title":"Goodbye!","author":{"given":"John","family":"Doe"},"tags":["a","b"]}"#);
    let mut manager = StateManager::new(before.clone());
    let patch = manager
        .update(|_| json(r#"{"title":"Hello!","author":{"given":"John"},"tags":["a"],"phone":"1"}"#))
        .unwrap();
    assert_eq!(patched(&before, &patch), manager.snapshot());
    assert_eq!(patch.len(), 4);

    let before = manager.snapshot();
    let patch = manager.replace(Value::Null).unwrap();
    assert_eq!(patched(&before, &patch), Value::Null);

    let before = manager.snapshot();
    let patch = manager
        .update_if(|_| true, |_| json(r#"[1, 2, {"k": "a/b~c"}]"#))
        .unwrap()
        .unwrap();
    assert_eq!(patched(&before, &patch), manager.snapshot());
}

#[test]
fn failed_patch_leaves_the_state() {
    let mut manager = StateManager::new(json(r#"{"x": 1}"#));
    let patch = vec![
        PatchOperation::Replace(ReplaceOperation {
            path: PointerBuf::parse("/x").unwrap(),
            value: Value::from(2),
        }),
        PatchOperation::Replace(ReplaceOperation {
            path: PointerBuf::parse("/missing").unwrap(),
            value: Value::from(3),
        }),
    ];
    let err = manager.apply_patch(&patch).unwrap_err();
    match &err {
        StateError::PatchFailed { op, path, reason } => {
            assert_eq!(op, "apply");
            assert_eq!(path, "unknown");
            assert!(!reason.is_empty());
        }
        other => panic!("expected PatchFailed, got {:?}", other),
    }
    assert_eq!(manager.snapshot(), json(r#"{"x": 1}"#));
}

#[test]
fn state_patch_accessors() {
    let empty = StatePatch::empty();
    assert!(empty.is_empty());
    assert_eq!(empty.len(), 0);
    assert!(empty.into_inner().is_empty());

    let ops = vec![PatchOperation::Add(AddOperation {
        path: PointerBuf::parse("/a").unwrap(),
        value: Value::from(1),
    })];
    let patch = StatePatch::new(ops.clone());
    assert_eq!(patch.len(), 1);
    assert_eq!(patch.operations(), &ops);
    assert_eq!(patch.into_inner(), ops);
}

#[test]
fn a_move_that_fails_half_way_is_an_error() {
    // The value at `from` is taken out before the target turns out not to exist.
    let mut manager = StateManager::new(json(r#"{"a":{"b":1}}"#));
    let patch = vec![
        PatchOperation::Add(AddOperation {
            path: PointerBuf::parse("/a/c").unwrap(),
            value: Value::from(2),
        }),
        PatchOperation::Move(MoveOperation {
            from: PointerBuf::parse("/a").unwrap(),
            path: PointerBuf::parse("/x/y").unwrap(),
        }),
    ];
    assert!(matches!(manager.apply_patch(&patch), Err(StateError::PatchFailed { .. })));
    assert_eq!(manager.snapshot(), json(r#"{"a":{"b":1}}"#));
}

#[test]
fn numbers_are_compared_by_value() {
    // Minus zero and zero are the same number: the diff is empty, though the texts differ.
    let mut manager = StateManager::new(json("[-0.0]"));
    let patch = manager.replace(json("[0.0]")).unwrap();
    assert!(patch.is_empty());
    assert_eq!(serde_json::to_string(&manager.snapshot()).unwrap(), "[0.0]");
}
