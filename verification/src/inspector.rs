//! Captured JSON-RPC traffic: what a captured message holds, and how a raw
//! line is told apart as request or response.

use vstd::prelude::*;
use serde_json::Value;
use crate::outside::{json_has_member, json_members, json_parsed, json_text_member,
    new_message_id, now_rfc3339, parse_json};
use crate::text::option_text;

verus! {

/// Direction of a JSON-RPC message.
#[derive(Debug, Clone, Copy, PartialEq, Eq, Structural)]
pub enum MessageDirection {
    /// Client to server.
    Request,
    /// Server to client.
    Response,
}

/// A captured JSON-RPC message.
#[derive(Debug, Clone)]
pub struct InspectorMessage {
    /// Unique message id.
    pub id: String,
    /// Time of capture, as RFC 3339 text.
    pub timestamp: String,
    /// Direction of message flow.
    pub direction: MessageDirection,
    /// Server that the message belongs to.
    pub server_name: String,
    /// Raw JSON-RPC payload.
    pub payload: Value,
    /// Method name, for a request that names one.
    pub method: Option<String>,
    /// Duration in milliseconds, for a response matched to its request.
    pub duration_ms: Option<u64>,
}

/// A captured message as plain data, with the payload as it is.
pub struct InspectorMessageView {
    pub id: Seq<char>,
    pub timestamp: Seq<char>,
    pub direction: MessageDirection,
    pub server_name: Seq<char>,
    pub payload: Value,
    pub method: Option<Seq<char>>,
    pub duration_ms: Option<u64>,
}

impl View for InspectorMessage {
    type V = InspectorMessageView;

    open spec fn view(&self) -> InspectorMessageView {
        InspectorMessageView {
            id: self.id@,
            timestamp: self.timestamp@,
            direction: self.direction,
            server_name: self.server_name@,
            payload: self.payload,
            method: option_text(self.method),
            duration_ms: self.duration_ms,
        }
    }
}

/// The views of a list of messages.
pub open spec fn messages_of(messages: Seq<InspectorMessage>) -> Seq<InspectorMessageView> {
    Seq::new(messages.len(), |i: int| messages[i]@)
}

/// The method that a payload names: the text of its member `method`, where
/// that member is a JSON string.
pub open spec fn method_of(members: Map<Seq<char>, Option<Seq<char>>>) -> Option<Seq<char>> {
    if members.dom().contains("method"@) {
        members["method"@]
    } else {
        None
    }
}

impl InspectorMessage {
    /// A message with the given id and time of capture, and no duration yet.
    pub fn from_parts(
        id: String,
        timestamp: String,
        direction: MessageDirection,
        server_name: &str,
        payload: Value,
        method: Option<String>,
    ) -> (message: Self)
        ensures
            message.id == id,
            message.timestamp == timestamp,
            message.direction == direction,
            message.server_name@ == server_name@,
            message.payload == payload,
            message.method == method,
            message.duration_ms is None,
    {
        InspectorMessage {
            id,
            timestamp,
            direction,
            server_name: server_name.to_owned(),
            payload,
            method,
            duration_ms: None,
        }
    }

    /// A copy of the message.
    pub fn duplicate(&self) -> (copy: Self)
        ensures
            copy@ == self@,
    {
        let method = match &self.method {
            Some(name) => Some(name.clone()),
            None => None,
        };
        InspectorMessage {
            id: self.id.clone(),
            timestamp: self.timestamp.clone(),
            direction: self.direction,
            server_name: self.server_name.clone(),
            payload: self.payload.clone(),
            method,
            duration_ms: self.duration_ms,
        }
    }

    /// A request captured now, under a fresh id. Its method is the one that
    /// the payload names.
    pub fn new_request(server_name: &str, payload: Value) -> (message: Self)
        ensures
            message.direction == MessageDirection::Request,
            message.server_name@ == server_name@,
            message.payload == payload,
            option_text(message.method) == method_of(json_members(payload)),
            message.duration_ms is None,
            message.id@.len() == 36,
            message.timestamp@.len() >= 25,
    {
        let method = json_text_member(&payload, "method");
        InspectorMessage::from_parts(
            new_message_id(),
            now_rfc3339(),
            MessageDirection::Request,
            server_name,
            payload,
            method,
        )
    }

    /// A response captured now, under a fresh id. It names no method.
    pub fn new_response(server_name: &str, payload: Value) -> (message: Self)
        ensures
            message.direction == MessageDirection::Response,
            message.server_name@ == server_name@,
            message.payload == payload,
            message.method is None,
            message.duration_ms is None,
            message.id@.len() == 36,
            message.timestamp@.len() >= 25,
    {
        InspectorMessage::from_parts(
            new_message_id(),
            now_rfc3339(),
            MessageDirection::Response,
            server_name,
            payload,
            None,
        )
    }
}

/// An inspection session for one server.
#[derive(Debug, Clone)]
pub struct InspectorSession {
    pub server_name: String,
    /// Time at which the session began, as RFC 3339 text.
    pub started_at: String,
    pub is_active: bool,
    pub message_count: usize,
}

impl InspectorSession {
    /// A session that began at `started_at`: active, with no message yet.
    pub fn started(server_name: &str, started_at: String) -> (session: Self)
        ensures
            session.server_name@ == server_name@,
            session.started_at == started_at,
            session.is_active,
            session.message_count == 0,
    {
        InspectorSession {
            server_name: server_name.to_owned(),
            started_at,
            is_active: true,
            message_count: 0,
        }
    }

    /// A session that begins now: active, with no message yet.
    pub fn new(server_name: &str) -> (session: Self)
        ensures
            session.server_name@ == server_name@,
            session.is_active,
            session.message_count == 0,
            session.started_at@.len() >= 25,
    {
        InspectorSession::started(server_name, now_rfc3339())
    }
}

/// The direction of a message with the given members: a message with a
/// `method` is a request; otherwise one with a `result` or an `error` is a
/// response; anything else is neither.
pub open spec fn direction_of(members: Map<Seq<char>, Option<Seq<char>>>) -> Option<
    MessageDirection,
> {
    if members.dom().contains("method"@) {
        Some(MessageDirection::Request)
    } else if members.dom().contains("result"@) || members.dom().contains("error"@) {
        Some(MessageDirection::Response)
    } else {
        None
    }
}

/// The direction of a parsed message.
pub fn classify_message(value: &Value) -> (direction: Option<MessageDirection>)
    ensures
        direction == direction_of(json_members(*value)),
{
    if json_has_member(value, "method") {
        Some(MessageDirection::Request)
    } else if json_has_member(value, "result") || json_has_member(value, "error") {
        Some(MessageDirection::Response)
    } else {
        None
    }
}

/// Parses a raw line and tells its direction. Text that is not JSON, and
/// JSON that is neither request nor response, yield nothing.
pub fn parse_jsonrpc_message(raw: &str) -> (parsed: Option<(MessageDirection, Value)>)
    ensures
        match json_parsed(raw@) {
            None => parsed is None,
            Some(document) => match direction_of(json_members(document)) {
                None => parsed is None,
                Some(direction) => parsed == Some((direction, document)),
            },
        },
{
    match parse_json(raw) {
        Ok(value) => match classify_message(&value) {
            Some(direction) => Some((direction, value)),
            None => None,
        },
        Err(_) => None,
    }
}

} // verus!
