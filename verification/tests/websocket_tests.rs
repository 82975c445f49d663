use sentinel::websocket::{
    echo_action, frame_chunk, normalize_client_url, ws_to_tcp_action, EchoAction,
    TcpForwardAction, WebSocketRelay, WebSocketTransport, WsMessage,
};

#[test]
fn the_echo_server_bounces_data_and_answers_pings() {
    match echo_action(WsMessage::Text("hi".to_string())) {
        EchoAction::Reply(WsMessage::Text(text)) => assert_eq!(text, "hi"),
        _ => panic!("text must echo as text"),
    }
    match echo_action(WsMessage::Binary(vec![1, 2, 3])) {
        EchoAction::Reply(WsMessage::Binary(data)) => assert_eq!(data, vec![1, 2, 3]),
        _ => panic!("binary must echo as binary"),
    }
    match echo_action(WsMessage::Ping(vec![9])) {
        EchoAction::Reply(WsMessage::Pong(data)) => assert_eq!(data, vec![9]),
        _ => panic!("a ping must be answered with a pong of the same bytes"),
    }
    assert!(matches!(echo_action(WsMessage::Close), EchoAction::Stop));
    assert!(matches!(echo_action(WsMessage::Pong(vec![])), EchoAction::Ignore));
    assert!(matches!(echo_action(WsMessage::Other), EchoAction::Ignore));
}

#[test]
fn the_relay_forwards_payloads_byte_for_byte() {
    match ws_to_tcp_action(WsMessage::Binary(vec![5, 6, 7])) {
        TcpForwardAction::Write(bytes) => assert_eq!(bytes, vec![5, 6, 7]),
        _ => panic!("binary payloads must be written"),
    }
    match ws_to_tcp_action(WsMessage::Text("ab".to_string())) {
        TcpForwardAction::Write(bytes) => assert_eq!(bytes, b"ab".to_vec()),
        _ => panic!("text must be written as its bytes"),
    }
    assert!(matches!(ws_to_tcp_action(WsMessage::Close), TcpForwardAction::Stop));
    assert!(matches!(ws_to_tcp_action(WsMessage::Ping(vec![1])), TcpForwardAction::Ignore));
    assert!(matches!(ws_to_tcp_action(WsMessage::Pong(vec![1])), TcpForwardAction::Ignore));
    assert!(matches!(ws_to_tcp_action(WsMessage::Other), TcpForwardAction::Ignore));
}

#[test]
fn read_chunks_are_framed_as_binary_messages() {
    let buffer = [10u8, 20, 30, 40, 50];
    match frame_chunk(&buffer, 3) {
        WsMessage::Binary(data) => assert_eq!(data, vec![10, 20, 30]),
        _ => panic!("a chunk must frame as binary"),
    }
}

#[test]
fn client_urls_gain_a_scheme_only_when_missing() {
    assert_eq!(normalize_client_url("ws://h:1/p"), "ws://h:1/p");
    assert_eq!(normalize_client_url("wss://h:1"), "wss://h:1");
    assert_eq!(normalize_client_url("h:1"), "ws://h:1");
}

#[test]
fn transports_and_relays_construct() {
    let _transport = WebSocketTransport::new();
    let _relay = WebSocketRelay::new();
    let _transport = WebSocketTransport::default();
    let _relay = WebSocketRelay::default();
}
