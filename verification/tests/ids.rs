use ag_ui::ids::{AgentId, MessageId, RunId, ThreadId, ToolCallId};
use uuid::Uuid;

#[test]
fn test_tool_call_random() {
    let id = ToolCallId::random();
    assert_eq!(id.as_str().len(), 5 + 8);
    assert!(id.as_str().starts_with("call_"));
    assert!(id.as_str()[5..].chars().all(|c| c.is_ascii_hexdigit()));
}

#[test]
fn test_message_id_deserialize_valid_uuid() {
    let id = MessageId::new("550e8400-e29b-41d4-a716-446655440000");
    assert_eq!(id.to_string(), "550e8400-e29b-41d4-a716-446655440000");
    assert!(!id.was_coerced());
}

#[test]
fn test_message_id_deserialize_langgraph_format() {
    let langgraph_id = "lc_run--019bcffd-726e-7ca1-9708-98f26a168272";
    let id = MessageId::new(langgraph_id);

    assert!(!id.to_string().is_empty());
    assert!(id.was_coerced());

    let id2 = MessageId::new(langgraph_id);
    assert_eq!(id, id2);
}

#[test]
fn test_run_id_deserialize_non_uuid_string() {
    let arbitrary_id = "my-custom-run-id-123";
    let id = RunId::new(arbitrary_id);

    assert!(!id.to_string().is_empty());
    assert!(id.was_coerced());

    let id2 = RunId::new(arbitrary_id);
    assert_eq!(id, id2);
}

#[test]
fn test_new_and_deserialize_produce_same_result() {
    let langgraph_id = "lc_run--019bcffd-726e-7ca1-9708-98f26a168272";

    let from_new = MessageId::new(langgraph_id);
    let from_parse: MessageId = langgraph_id.parse().unwrap();

    assert_eq!(from_new, from_parse);
}

#[test]
fn test_serialize_roundtrip_valid_uuid() {
    let original = MessageId::random();
    let serialized = original.to_string();
    let deserialized = MessageId::new(&serialized);

    assert_eq!(original, deserialized);
    assert!(!deserialized.was_coerced());
}

#[test]
fn test_serialize_roundtrip_langgraph_format() {
    let langgraph_id = "lc_run--019bcffd-726e-7ca1-9708-98f26a168272";
    let id = MessageId::new(langgraph_id);

    let serialized = id.to_string();
    assert_eq!(serialized, langgraph_id);

    let deserialized = MessageId::new(&serialized);
    assert_eq!(id, deserialized);
    assert!(deserialized.was_coerced());
    assert_eq!(deserialized.original_string(), Some(langgraph_id));
}

#[test]
fn test_serialize_roundtrip_arbitrary_string() {
    let arbitrary_id = "my-custom-run-id-123";
    let id = RunId::new(arbitrary_id);

    let serialized = id.to_string();
    assert_eq!(serialized, arbitrary_id);

    let deserialized = RunId::new(&serialized);
    assert_eq!(id, deserialized);
}

#[test]
fn test_display_preserves_original() {
    let langgraph_id = "lc_run--019bcffd-726e-7ca1-9708-98f26a168272";
    let id = MessageId::new(langgraph_id);

    assert_eq!(id.to_string(), langgraph_id);
}

#[test]
fn test_display_shows_uuid_for_valid_uuid() {
    let uuid_str = "550e8400-e29b-41d4-a716-446655440000";
    let id = MessageId::new(uuid_str);

    assert_eq!(id.to_string(), uuid_str);
    assert!(!id.was_coerced());
}

#[test]
fn test_was_coerced_flag() {
    let uuid_id = MessageId::new("550e8400-e29b-41d4-a716-446655440000");
    assert!(!uuid_id.was_coerced());
    assert!(uuid_id.original_string().is_none());

    let coerced_id = MessageId::new("not-a-uuid");
    assert!(coerced_id.was_coerced());
    assert_eq!(coerced_id.original_string(), Some("not-a-uuid"));
}

#[test]
fn test_as_uuid_always_available() {
    let uuid_str = "550e8400-e29b-41d4-a716-446655440000";
    let uuid_id = MessageId::new(uuid_str);
    assert_eq!(Uuid::from_u128(uuid_id.as_uuid()), Uuid::parse_str(uuid_str).unwrap());

    let coerced_id = MessageId::new("not-a-uuid");
    let uuid = Uuid::from_u128(coerced_id.as_uuid());
    assert!(!uuid.is_nil());
}

#[test]
fn test_hash_consistency() {
    let id1 = ThreadId::new("lc_run--abc");
    let id2 = ThreadId::new("lc_run--abc");

    let mut map = std::collections::HashMap::new();
    map.insert(id1.clone(), "value1");

    // id2 should find the same entry as id1
    assert_eq!(map.get(&id2), Some(&"value1"));
}

#[test]
fn ids_hash_by_their_uuid() {
    // Equal identifiers hash alike, whether or not they keep an original string.
    let coerced = MessageId::new("run-7");
    let plain = MessageId::from_u128(coerced.as_uuid());
    assert_eq!(coerced, plain);
    let mut set = std::collections::HashSet::new();
    set.insert(coerced);
    assert!(set.contains(&plain));
    assert!(!set.contains(&MessageId::new("run-8")));

    let mut calls = std::collections::HashSet::new();
    calls.insert(ToolCallId::new("call_1"));
    assert!(calls.contains(&ToolCallId::new("call_1")));
    assert!(!calls.contains(&ToolCallId::new("call_2")));
}

#[test]
fn test_equality_with_string() {
    let langgraph_id = "lc_run--019bcffd-726e-7ca1-9708-98f26a168272";
    let id = MessageId::new(langgraph_id);

    assert!(id.eq_str(langgraph_id));
}

#[test]
fn test_from_uuid() {
    let uuid = Uuid::new_v4();
    let id = MessageId::from_u128(uuid.as_u128());

    assert!(!id.was_coerced());
    assert_eq!(Uuid::from_u128(id.as_uuid()), uuid);
}

#[test]
fn test_into_uuid() {
    let original_uuid = Uuid::new_v4();
    let id = MessageId::from_u128(original_uuid.as_u128());
    let recovered = Uuid::from_u128(id.as_uuid());

    assert_eq!(original_uuid, recovered);
}

#[test]
fn test_from_str_accepts_any_string() {
    let id: MessageId = "not-a-uuid".parse().unwrap();
    assert!(id.was_coerced());

    let id2: MessageId = "550e8400-e29b-41d4-a716-446655440000".parse().unwrap();
    assert!(!id2.was_coerced());
}

#[test]
fn test_uuid_v5_is_deterministic() {
    let input = "lc_run--019bcffd-726e-7ca1-9708-98f26a168272";

    let id1 = MessageId::new(input);
    let id2 = MessageId::new(input);

    assert_eq!(id1.as_uuid(), id2.as_uuid());

    let expected = Uuid::new_v5(&Uuid::NAMESPACE_OID, input.as_bytes());
    assert_eq!(Uuid::from_u128(id1.as_uuid()), expected);
}

#[test]
fn coerced_id_round_trip() {
    let text = "lc_run--019bcffd-726e-7ca1-9708-98f26a168272";
    let id = MessageId::new(text);
    assert_eq!(id.to_string(), text);
    assert!(id.was_coerced());
    assert_eq!(MessageId::new(text), id);
    // The UUID is the hash of the string, not the string read as a UUID.
    assert_ne!(
        Uuid::from_u128(id.as_uuid()),
        Uuid::parse_str("019bcffd-726e-7ca1-9708-98f26a168272").unwrap()
    );
}

#[test]
fn uuid_in_another_form_is_written_canonically() {
    // Upper case and without hyphens: still a UUID, written out in canonical form.
    let id = AgentId::new("550E8400E29B41D4A716446655440000");
    assert!(!id.was_coerced());
    assert_eq!(id.to_string(), "550e8400-e29b-41d4-a716-446655440000");
    assert_eq!(id, AgentId::new("550e8400-e29b-41d4-a716-446655440000"));
}

#[test]
fn eq_str_compares_by_uuid_or_original() {
    let id = RunId::new("550e8400-e29b-41d4-a716-446655440000");
    assert!(id.eq_str("550e8400-e29b-41d4-a716-446655440000"));
    assert!(id.eq_str("550E8400-E29B-41D4-A716-446655440000"));
    assert!(!id.eq_str("550e8400-e29b-41d4-a716-446655440001"));
    assert!(!id.eq_str("run-7"));
    assert!(RunId::new("run-7").eq_str("run-7"));
    assert!(!RunId::new("run-7").eq_str("run-8"));
}

#[test]
fn random_ids_are_not_coerced_and_differ() {
    let a = ThreadId::random();
    let b = ThreadId::random();
    assert!(!a.was_coerced());
    assert_ne!(a, b);
    assert_eq!(a.to_string().len(), 36);
    assert_eq!(a.clone(), a);
}

#[test]
fn tool_call_ids_are_plain_strings() {
    let id = ToolCallId::new("550e8400-e29b-41d4-a716-446655440000");
    assert_eq!(id.as_str(), "550e8400-e29b-41d4-a716-446655440000");
    assert_eq!(id.to_string(), "550e8400-e29b-41d4-a716-446655440000");
    assert_eq!(id, ToolCallId::new("550e8400-e29b-41d4-a716-446655440000"));
    assert_ne!(id, ToolCallId::new("call_1"));
}

#[test]
fn random_ids_are_version_4_uuids() {
    for _ in 0..32 {
        let ids = [
            MessageId::random().as_uuid(),
            AgentId::random().as_uuid(),
            ThreadId::random().as_uuid(),
            RunId::random().as_uuid(),
        ];
        for value in ids {
            let uuid = Uuid::from_u128(value);
            assert_eq!(uuid.get_version_num(), 4);
            assert_eq!(uuid.get_variant(), uuid::Variant::RFC4122);
            assert_eq!(value & 0xF000_C000_0000_0000_0000, 0x4000_8000_0000_0000_0000);
        }
    }
    // Written out, the version stands at the head of the third group.
    assert_eq!(MessageId::random().to_string().as_bytes()[14], b'4');
}
