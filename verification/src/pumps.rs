//! The stream pumps of one process, as steps: what a pump does with the next
//! item of its stream. Whoever drives a pump reads the stream, hands each
//! item to [`StreamPump::step`] and carries the actions out in their order.

use vstd::prelude::*;
use vstd::string::StringExecFns;
use crate::inspector::{InspectorMessage, MessageDirection};
use crate::outside::{json_parsed, parse_json};
use crate::process_manager::{McpTrafficEvent, TrafficDirection};
use crate::redactor::{redact_text, SecretSet};

verus! {

/// The three streams of a process.
#[derive(Debug, Clone, Copy, PartialEq, Eq, Structural)]
pub enum Stream {
    /// Payloads queued for the process's standard input.
    Stdin,
    /// Lines read from the process's standard output.
    Stdout,
    /// Lines read from the process's standard error.
    Stderr,
}

/// What a pump learns from its stream.
#[derive(Debug)]
pub enum PumpEvent {
    /// The next payload or line.
    Item(String),
    /// The queue was closed, or the stream came to its end.
    Closed,
    /// Reading or writing failed; a line over the length limit counts as such.
    Failed,
}

/// What a pump asks to be done.
#[derive(Debug)]
pub enum PumpAction {
    /// Hand the event to the observer.
    Emit(McpTrafficEvent),
    /// Write the text to the process's standard input.
    Write(String),
    /// Flush the process's standard input.
    Flush,
    /// Hand the message to the message capture, if there is one.
    Capture(InspectorMessage),
}

/// One pump: the stream it serves, the server it belongs to, the secrets as
/// they stood when the process was spawned, and whether it still runs.
pub struct StreamPump {
    pub stream: Stream,
    pub server_name: String,
    pub secrets: SecretSet,
    pub running: bool,
}

/// `actions` are what a stdin pump owes for `payload`: first the event that
/// shows the redacted payload, then the raw payload with a newline, then a
/// flush.
pub open spec fn stdin_actions(
    actions: Seq<PumpAction>,
    server: Seq<char>,
    secrets: Seq<Seq<char>>,
    payload: Seq<char>,
) -> bool {
    &&& actions.len() == 3
    &&& actions[0] matches PumpAction::Emit(event) && event.reports(
        server,
        TrafficDirection::Outgoing,
        redact_text(secrets, payload),
    )
    &&& actions[1] matches PumpAction::Write(frame) && frame@ == payload.push('\n')
    &&& actions[2] is Flush
}

/// `actions` are what a stdout pump owes for `line`: the event that shows the
/// redacted line and, where the line is JSON, its capture as a response.
pub open spec fn stdout_actions(
    actions: Seq<PumpAction>,
    server: Seq<char>,
    secrets: Seq<Seq<char>>,
    line: Seq<char>,
) -> bool {
    &&& actions.len() >= 1
    &&& actions[0] matches PumpAction::Emit(event) && event.reports(
        server,
        TrafficDirection::Incoming,
        redact_text(secrets, line),
    )
    &&& match json_parsed(line) {
        None => actions.len() == 1,
        Some(document) => {
            &&& actions.len() == 2
            &&& actions[1] matches PumpAction::Capture(message)
            &&& message.direction == MessageDirection::Response
            &&& message.server_name@ == server
            &&& message.payload == document
            &&& message.method is None
            &&& message.duration_ms is None
        },
    }
}

/// `actions` are what a stderr pump owes for `line`: the event that shows the
/// line as it is.
pub open spec fn stderr_actions(actions: Seq<PumpAction>, server: Seq<char>, line: Seq<char>) -> bool {
    &&& actions.len() == 1
    &&& actions[0] matches PumpAction::Emit(event) && event.reports(
        server,
        TrafficDirection::Stderr,
        line,
    )
}

impl StreamPump {
    /// A running pump for `stream` of the server `server_name`.
    pub fn new(stream: Stream, server_name: &str, secrets: SecretSet) -> (pump: Self)
        ensures
            pump.stream == stream,
            pump.server_name@ == server_name@,
            pump.secrets == secrets,
            pump.running,
    {
        StreamPump { stream, server_name: server_name.to_owned(), secrets, running: true }
    }

    /// `actions` are what this pump owes for `item`.
    pub open spec fn owes(self, item: Seq<char>, actions: Seq<PumpAction>) -> bool {
        match self.stream {
            Stream::Stdin => stdin_actions(actions, self.server_name@, self.secrets@, item),
            Stream::Stdout => stdout_actions(actions, self.server_name@, self.secrets@, item),
            Stream::Stderr => stderr_actions(actions, self.server_name@, item),
        }
    }

    /// Takes the next event of the stream. A running pump answers an item
    /// with the actions it owes for it and goes on running; the end of the
    /// stream or a failure stops the pump. A stopped pump asks for nothing.
    pub fn step(&mut self, event: PumpEvent) -> (actions: Vec<PumpAction>)
        ensures
            final(self).stream == old(self).stream,
            final(self).server_name == old(self).server_name,
            final(self).secrets == old(self).secrets,
            final(self).running == (old(self).running && event is Item),
            match event {
                PumpEvent::Item(item) => if old(self).running {
                    old(self).owes(item@, actions@)
                } else {
                    actions@.len() == 0
                },
                _ => actions@.len() == 0,
            },
    {
        let mut actions: Vec<PumpAction> = Vec::new();
        if !self.running {
            return actions;
        }
        match event {
            PumpEvent::Item(item) => {
                let name = self.server_name.as_str();
                match self.stream {
                    Stream::Stdin => {
                        let shown = self.secrets.redact(item.as_str());
                        actions.push(
                            PumpAction::Emit(
                                McpTrafficEvent::observed(name, TrafficDirection::Outgoing, shown),
                            ),
                        );
                        let mut frame = item;
                        proof {
                            reveal_strlit("\n");
                            assert(frame@ + "\n"@ =~= frame@.push('\n'));
                        }
                        frame.append("\n");
                        actions.push(PumpAction::Write(frame));
                        actions.push(PumpAction::Flush);
                    },
                    Stream::Stdout => {
                        let shown = self.secrets.redact(item.as_str());
                        actions.push(
                            PumpAction::Emit(
                                McpTrafficEvent::observed(name, TrafficDirection::Incoming, shown),
                            ),
                        );
                        match parse_json(item.as_str()) {
                            Ok(payload) => {
                                actions.push(
                                    PumpAction::Capture(
                                        InspectorMessage::new_response(name, payload),
                                    ),
                                );
                            },
                            Err(_) => {},
                        }
                    },
                    Stream::Stderr => {
                        actions.push(
                            PumpAction::Emit(
                                McpTrafficEvent::observed(name, TrafficDirection::Stderr, item),
                            ),
                        );
                    },
                }
            },
            PumpEvent::Closed => {
                self.running = false;
            },
            PumpEvent::Failed => {
                self.running = false;
            },
        }
        actions
    }
}

} // verus!
