use synaptic::inspector::{
    classify_message, parse_jsonrpc_message, InspectorMessage, InspectorSession, MessageDirection,
};

#[test]
fn test_parse_request() {
    let json = r#"{"jsonrpc":"2.0","method":"tools/list","id":1}"#;
    let result = parse_jsonrpc_message(json);
    assert!(result.is_some());
    let (direction, _) = result.unwrap();
    assert_eq!(direction, MessageDirection::Request);
}

#[test]
fn test_parse_response() {
    let json = r#"{"jsonrpc":"2.0","result":{"tools":[]},"id":1}"#;
    let result = parse_jsonrpc_message(json);
    assert!(result.is_some());
    let (direction, _) = result.unwrap();
    assert_eq!(direction, MessageDirection::Response);
}

#[test]
fn an_error_is_a_response_and_a_method_wins() {
    let (direction, _) = parse_jsonrpc_message(r#"{"error":{"code":-1},"id":1}"#).unwrap();
    assert_eq!(direction, MessageDirection::Response);
    let (direction, value) =
        parse_jsonrpc_message(r#"{"method":"ping","result":1,"error":2}"#).unwrap();
    assert_eq!(direction, MessageDirection::Request);
    assert_eq!(value["method"], "ping");
}

#[test]
fn other_text_is_neither() {
    assert!(parse_jsonrpc_message("not json").is_none());
    assert!(parse_jsonrpc_message("").is_none());
    assert!(parse_jsonrpc_message(r#"{"jsonrpc":"2.0","id":1}"#).is_none());
    assert!(parse_jsonrpc_message(r#"["method"]"#).is_none());
    assert!(parse_jsonrpc_message(r#""method""#).is_none());
    assert!(parse_jsonrpc_message(r#"{"method":"a"} trailing"#).is_none());
}

#[test]
fn classify_reads_the_top_level_only() {
    let nested: serde_json::Value = serde_json::from_str(r#"{"params":{"method":"x"}}"#).unwrap();
    assert_eq!(classify_message(&nested), None);
    let null_method: serde_json::Value = serde_json::from_str(r#"{"method":null}"#).unwrap();
    assert_eq!(classify_message(&null_method), Some(MessageDirection::Request));
}

#[test]
fn a_request_names_its_method() {
    let payload: serde_json::Value =
        serde_json::from_str(r#"{"jsonrpc":"2.0","method":"tools/list","id":1}"#).unwrap();
    let message = InspectorMessage::new_request("srv", payload.clone());
    assert_eq!(message.direction, MessageDirection::Request);
    assert_eq!(message.server_name, "srv");
    assert_eq!(message.method.as_deref(), Some("tools/list"));
    assert_eq!(message.payload, payload);
    assert_eq!(message.duration_ms, None);
    assert_eq!(message.id.len(), 36);

    let numeric: serde_json::Value = serde_json::from_str(r#"{"method":7}"#).unwrap();
    assert_eq!(InspectorMessage::new_request("srv", numeric).method, None);
    let none: serde_json::Value = serde_json::from_str(r#"{"id":7}"#).unwrap();
    assert_eq!(InspectorMessage::new_request("srv", none).method, None);
}

#[test]
fn a_response_names_no_method() {
    let payload: serde_json::Value =
        serde_json::from_str(r#"{"method":"ignored","result":1}"#).unwrap();
    let message = InspectorMessage::new_response("srv", payload);
    assert_eq!(message.direction, MessageDirection::Response);
    assert_eq!(message.method, None);
    assert_eq!(message.id.len(), 36);
}

#[test]
fn a_message_from_parts_keeps_them() {
    let payload: serde_json::Value = serde_json::from_str("[1,2]").unwrap();
    let message = InspectorMessage::from_parts(
        "id".to_string(),
        "when".to_string(),
        MessageDirection::Response,
        "srv",
        payload.clone(),
        Some("m".to_string()),
    );
    assert_eq!(message.id, "id");
    assert_eq!(message.timestamp, "when");
    assert_eq!(message.payload, payload);
    assert_eq!(message.method.as_deref(), Some("m"));
}

#[test]
fn a_new_session_is_active_and_empty() {
    let session = InspectorSession::new("srv");
    assert_eq!(session.server_name, "srv");
    assert!(session.is_active);
    assert_eq!(session.message_count, 0);
    assert!(!session.started_at.is_empty());
    let fixed = InspectorSession::started("srv", "then".to_string());
    assert_eq!(fixed.started_at, "then");
}
