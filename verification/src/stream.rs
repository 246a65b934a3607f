//! The decisions of a websocket stream that reconnects after every failure:
//! a step from the stream's state and what happened to its next state and
//! what to do. The caller connects, reads and sleeps.
use vstd::prelude::*;

verus! {

/// Seconds to wait before connecting again.
pub const DEFAULT_WS_RETRY_SECS: u64 = 3;

/// Whether the stream holds a connection.
#[derive(Debug, Clone, Copy, PartialEq, Eq, Structural)]
pub enum StreamState {
    Disconnected,
    Connected,
}

/// What happened since the last step.
#[derive(Debug, Clone, PartialEq, Eq)]
pub enum StreamEvent {
    /// The stream was asked for its next item.
    Polled,
    /// Connecting succeeded.
    ConnectOk,
    /// Connecting failed.
    ConnectFailed,
    /// A text message arrived.
    Text(String),
    /// A message of another kind arrived.
    OtherMessage,
    /// The peer closed the connection.
    Closed,
    /// Reading failed.
    ReadFailed,
    /// The connection ended.
    Ended,
}

/// What the caller is to do next.
#[derive(Debug, Clone, PartialEq, Eq)]
pub enum StreamAction {
    /// Connect.
    Connect,
    /// Wait the retry interval, then connect.
    WaitThenConnect,
    /// Read the next message.
    Read,
    /// Hand this text on as the stream's next item (to be decoded).
    Emit(String),
}

/// The next state and action after `event` in `state`.
pub open spec fn stream_step_spec(state: StreamState, event: StreamEvent) -> (StreamState, StreamAction) {
    match (state, event) {
        (StreamState::Disconnected, StreamEvent::Polled) => (StreamState::Disconnected, StreamAction::Connect),
        (StreamState::Disconnected, StreamEvent::ConnectOk) => (StreamState::Connected, StreamAction::Read),
        (StreamState::Disconnected, _) => (StreamState::Disconnected, StreamAction::WaitThenConnect),
        (StreamState::Connected, StreamEvent::Text(t)) => (StreamState::Connected, StreamAction::Emit(t)),
        (StreamState::Connected, StreamEvent::Closed) => (StreamState::Disconnected, StreamAction::WaitThenConnect),
        (StreamState::Connected, StreamEvent::ReadFailed) => (
            StreamState::Disconnected,
            StreamAction::WaitThenConnect,
        ),
        (StreamState::Connected, StreamEvent::Ended) => (StreamState::Disconnected, StreamAction::WaitThenConnect),
        (StreamState::Connected, _) => (StreamState::Connected, StreamAction::Read),
    }
}

/// One step of the stream: with no connection, a poll connects, a
/// connection reads, and a failure waits and connects again; with a
/// connection, a text is handed on, another message is skipped, and a close,
/// a read error or the end drops the connection, waits and connects again.
pub fn stream_step(state: StreamState, event: StreamEvent) -> (r: (StreamState, StreamAction))
    ensures
        r == stream_step_spec(state, event),
{
    match state {
        StreamState::Disconnected => match event {
            StreamEvent::Polled => (StreamState::Disconnected, StreamAction::Connect),
            StreamEvent::ConnectOk => (StreamState::Connected, StreamAction::Read),
            _ => (StreamState::Disconnected, StreamAction::WaitThenConnect),
        },
        StreamState::Connected => match event {
            StreamEvent::Text(t) => (StreamState::Connected, StreamAction::Emit(t)),
            StreamEvent::Closed => (StreamState::Disconnected, StreamAction::WaitThenConnect),
            StreamEvent::ReadFailed => (StreamState::Disconnected, StreamAction::WaitThenConnect),
            StreamEvent::Ended => (StreamState::Disconnected, StreamAction::WaitThenConnect),
            _ => (StreamState::Connected, StreamAction::Read),
        },
    }
}

/// The websocket scheme for an API scheme: `wss` for `https`, else `ws`.
pub open spec fn ws_scheme_spec(scheme: Seq<char>) -> Seq<char> {
    if scheme == "https"@ {
        "wss"@
    } else {
        "ws"@
    }
}

/// The websocket scheme for an API scheme.
pub fn ws_scheme(scheme: &String) -> (r: String)
    ensures
        r@ == ws_scheme_spec(scheme@),
{
    let https = "https".to_string();
    if *scheme == https {
        "wss".to_string()
    } else {
        "ws".to_string()
    }
}

} // verus!
