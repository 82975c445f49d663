//! The WebSocket leg of the transport adapter: message rules for relaying
//! and echoing.
//!
//! Application bytes travel as binary messages. A ping is answered with a
//! pong carrying the same bytes, a close ends the connection, and every
//! rule about which message produces which action is decided here; the
//! handshake and the socket itself are transport plumbing.

use vstd::prelude::*;
use vstd::string::StrSliceExecFns;
use vstd::string::StringSliceAdditionalSpecFns;
use crate::strutil::{spec_has_prefix, str_starts_with};

verus! {

/// One WebSocket message, as the relay sees it.
#[derive(Debug)]
pub enum WsMessage {
    /// A text message.
    Text(String),
    /// A binary message: the relay's payload framing.
    Binary(Vec<u8>),
    /// A ping control frame, to be answered with a pong of the same bytes.
    Ping(Vec<u8>),
    /// A pong control frame.
    Pong(Vec<u8>),
    /// The peer closed the connection.
    Close,
    /// Any other frame; it carries nothing the relay acts on.
    Other,
}

/// What an echo server does with one received message.
pub enum EchoAction {
    /// Send this message back.
    Reply(WsMessage),
    /// Stop serving this connection.
    Stop,
    /// Do nothing and read on.
    Ignore,
}

/// The echo rule: text and binary messages bounce back unchanged, a ping
/// is answered with a pong carrying the same bytes, a close stops the
/// connection, everything else is ignored.
pub fn echo_action(message: WsMessage) -> (action: EchoAction)
    ensures
        message matches WsMessage::Text(text) ==> action == EchoAction::Reply(
            WsMessage::Text(text),
        ),
        message matches WsMessage::Binary(data) ==> action == EchoAction::Reply(
            WsMessage::Binary(data),
        ),
        message matches WsMessage::Ping(data) ==> action == EchoAction::Reply(
            WsMessage::Pong(data),
        ),
        message is Close ==> action == EchoAction::Stop,
        message is Pong || message is Other ==> action == EchoAction::Ignore,
{
    match message {
        WsMessage::Text(text) => EchoAction::Reply(WsMessage::Text(text)),
        WsMessage::Binary(data) => EchoAction::Reply(WsMessage::Binary(data)),
        WsMessage::Ping(data) => EchoAction::Reply(WsMessage::Pong(data)),
        WsMessage::Close => EchoAction::Stop,
        WsMessage::Pong(_) => EchoAction::Ignore,
        WsMessage::Other => EchoAction::Ignore,
    }
}

/// What the WebSocket-to-socket direction of a relay does with one
/// received message.
pub enum TcpForwardAction {
    /// Write these bytes to the socket.
    Write(Vec<u8>),
    /// Stop the relay pair.
    Stop,
    /// Do nothing and read on.
    Ignore,
}

/// The forwarding rule for the WebSocket-to-socket direction: binary
/// payloads pass through byte for byte, text is forwarded as its UTF-8
/// bytes, a close stops the pair, and control frames are left to the
/// transport.
pub fn ws_to_tcp_action(message: WsMessage) -> (action: TcpForwardAction)
    ensures
        message matches WsMessage::Binary(data) ==> action == TcpForwardAction::Write(data),
        message matches WsMessage::Text(text) ==> (action matches TcpForwardAction::Write(bytes)
            && bytes@ == vstd::utf8::encode_utf8(text@)),
        message is Close ==> action == TcpForwardAction::Stop,
        message is Ping || message is Pong || message is Other ==> action
            == TcpForwardAction::Ignore,
{
    match message {
        WsMessage::Binary(data) => TcpForwardAction::Write(data),
        WsMessage::Text(text) => TcpForwardAction::Write(text.as_str().as_bytes_vec()),
        WsMessage::Close => TcpForwardAction::Stop,
        WsMessage::Ping(_) => TcpForwardAction::Ignore,
        WsMessage::Pong(_) => TcpForwardAction::Ignore,
        WsMessage::Other => TcpForwardAction::Ignore,
    }
}

/// Frames the first `count` bytes of a read buffer as one binary message
/// for the socket-to-WebSocket direction: the chunk passes through byte
/// for byte.
pub fn frame_chunk(buffer: &[u8], count: usize) -> (message: WsMessage)
    requires
        count <= buffer@.len(),
    ensures
        message matches WsMessage::Binary(data) && data@ == buffer@.take(count as int),
{
    WsMessage::Binary(crate::crypto::slice_take(buffer, count))
}

/// The URL a WebSocket client dials for a configured endpoint: an endpoint
/// that is already a `ws://` or `wss://` URL is used as it stands; a bare
/// address gets the `ws://` scheme.
pub open spec fn spec_client_url(endpoint: Seq<char>) -> Seq<char> {
    if spec_has_prefix(endpoint, "ws://"@) || spec_has_prefix(endpoint, "wss://"@) {
        endpoint
    } else {
        "ws://"@ + endpoint
    }
}

/// Normalizes an endpoint into the URL to dial.
pub fn normalize_client_url(endpoint: &str) -> (url: String)
    ensures
        url@ == spec_client_url(endpoint@),
{
    if str_starts_with(endpoint, "ws://") || str_starts_with(endpoint, "wss://") {
        <String as vstd::string::StringExecFns>::from_str(endpoint)
    } else {
        let mut url = <String as vstd::string::StringExecFns>::from_str("ws://");
        url.append(endpoint);
        url
    }
}

/// The WebSocket transport: dials endpoints and listens for handshakes;
/// the sockets live with the transport plumbing, the URL rules here.
pub struct WebSocketTransport;

impl WebSocketTransport {
    /// A transport; it holds no state of its own.
    pub fn new() -> (transport: WebSocketTransport) {
        WebSocketTransport
    }
}

impl Default for WebSocketTransport {
    fn default() -> (transport: WebSocketTransport) {
        WebSocketTransport::new()
    }
}

/// The WebSocket relay: pairs a WebSocket with a plain socket and pumps
/// messages between them under the rules above.
pub struct WebSocketRelay;

impl WebSocketRelay {
    /// A relay; it holds no state of its own.
    pub fn new() -> (relay: WebSocketRelay) {
        WebSocketRelay
    }
}

impl Default for WebSocketRelay {
    fn default() -> (relay: WebSocketRelay) {
        WebSocketRelay::new()
    }
}

} // verus!
