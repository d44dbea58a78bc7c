use art_chat_rs_lib::address::{parse_address, server_url, AddressError, SERVER_ADDRESS};
use art_chat_rs_lib::event::HostEvent;
use art_chat_rs_lib::frame::Frame;
use art_chat_rs_lib::outbound::{finish_send, plan_send, SendError, SendPlan};
use art_chat_rs_lib::pump::{Input, Phase, Reaction, Relay};

fn connected_relay() -> Relay {
    let mut relay = Relay::new();
    let r = relay.step(Input::HandshakeSucceeded);
    assert!(r.store_writer);
    relay
}

fn chat_text(r: &Reaction) -> Option<String> {
    match &r.event {
        Some(HostEvent::ChatMessage(text)) => Some(text.clone()),
        _ => None,
    }
}

#[test]
fn handshake_success_announces_connection() {
    let mut relay = Relay::new();
    assert_eq!(relay.phase(), Phase::Connecting);
    assert!(!relay.is_linked());
    let r = relay.step(Input::HandshakeSucceeded);
    let event = r.event.expect("an event");
    assert_eq!(event.name(), "connection-status");
    assert_eq!(event.payload(), "connected");
    assert!(r.store_writer);
    assert!(r.read_next);
    assert_eq!(relay.phase(), Phase::Pumping);
    assert!(relay.is_linked());
}

#[test]
fn handshake_failure_is_terminal() {
    let mut relay = Relay::new();
    let r = relay.step(Input::HandshakeFailed);
    assert!(r.event.is_none());
    assert!(!r.store_writer);
    assert!(!r.read_next);
    assert_eq!(relay.phase(), Phase::Finished);
    assert!(!relay.is_linked());
    let again = relay.step(Input::HandshakeSucceeded);
    assert!(again.event.is_none());
    assert!(!again.store_writer);
    assert!(!relay.is_linked());
}

#[test]
fn connected_announced_only_once() {
    let mut relay = connected_relay();
    let mut announced = 0;
    let inputs = vec![
        Input::HandshakeSucceeded,
        Input::Received(Frame::Text("a".to_string())),
        Input::HandshakeSucceeded,
    ];
    for input in inputs {
        let r = relay.step(input);
        assert!(!r.store_writer);
        if matches!(r.event, Some(HostEvent::ConnectionStatus)) {
            announced += 1;
        }
    }
    assert_eq!(announced, 0);
}

#[test]
fn frames_before_handshake_are_ignored() {
    let mut relay = Relay::new();
    let r = relay.step(Input::Received(Frame::Text("early".to_string())));
    assert!(r.event.is_none());
    assert!(!r.read_next);
    assert_eq!(relay.phase(), Phase::Connecting);
}

#[test]
fn text_frames_relayed_in_order() {
    let mut relay = connected_relay();
    let texts = ["uno", "dos", "tres", ""];
    let mut seen = Vec::new();
    for t in texts {
        let r = relay.step(Input::Received(Frame::Text(t.to_string())));
        assert!(r.read_next);
        let event = r.event.expect("an event");
        assert_eq!(event.name(), "chat-message");
        seen.push(event.payload());
    }
    assert_eq!(seen, vec!["uno", "dos", "tres", ""]);
}

#[test]
fn non_text_frames_publish_nothing() {
    let mut relay = connected_relay();
    let frames = vec![
        Frame::Binary(vec![1, 2, 3]),
        Frame::Ping(vec![9]),
        Frame::Pong(vec![]),
        Frame::Raw(vec![0]),
    ];
    for f in frames {
        assert!(!f.is_text());
        let r = relay.step(Input::Received(f));
        assert!(r.event.is_none());
        assert!(r.read_next);
    }
    assert_eq!(relay.phase(), Phase::Pumping);
}

#[test]
fn mixed_frames_relay_only_text() {
    let mut relay = connected_relay();
    let frames = vec![
        Frame::Binary(vec![7]),
        Frame::Text("x".to_string()),
        Frame::Ping(vec![]),
        Frame::Text("y".to_string()),
    ];
    let mut seen = Vec::new();
    for f in frames {
        let r = relay.step(Input::Received(f));
        if let Some(t) = chat_text(&r) {
            seen.push(t);
        }
    }
    assert_eq!(seen, vec!["x".to_string(), "y".to_string()]);
}

#[test]
fn read_error_ends_the_loop_and_keeps_writer() {
    let mut relay = connected_relay();
    let r = relay.step(Input::ReadFailed);
    assert!(r.event.is_none());
    assert!(!r.read_next);
    assert_eq!(relay.phase(), Phase::Finished);
    assert!(relay.is_linked());
    let late = relay.step(Input::Received(Frame::Text("late".to_string())));
    assert!(late.event.is_none());
    assert!(!late.read_next);
}

#[test]
fn hello_then_close_then_send_fails() {
    let mut relay = connected_relay();
    let r = relay.step(Input::Received(Frame::Text("hello".to_string())));
    assert_eq!(chat_text(&r), Some("hello".to_string()));
    let close = relay.step(Input::Received(Frame::Close));
    assert!(close.event.is_none());
    let end = relay.step(Input::StreamEnded);
    assert!(end.event.is_none());
    assert!(!end.read_next);
    let after = relay.step(Input::Received(Frame::Text("more".to_string())));
    assert!(after.event.is_none());
    match plan_send(relay.is_linked(), "hi".to_string()) {
        SendPlan::Write(text) => assert_eq!(text, "hi"),
        SendPlan::Refuse(_) => panic!("a writer is stored"),
    }
    let reply = finish_send(Err("Trying to work with closed connection".to_string()));
    match reply {
        Err(SendError::Transport(d)) => assert_eq!(d, "Trying to work with closed connection"),
        _ => panic!("the send must fail"),
    }
}

#[test]
fn send_while_connected_writes_message() {
    let msg = "¡hola, señor! ✓".to_string();
    match plan_send(true, msg.clone()) {
        SendPlan::Write(text) => assert_eq!(text, msg),
        SendPlan::Refuse(_) => panic!("must write"),
    }
    assert!(finish_send(Ok(())).is_ok());
}

#[test]
fn send_before_handshake_is_refused() {
    let relay = Relay::new();
    match plan_send(relay.is_linked(), "hi".to_string()) {
        SendPlan::Refuse(e) => {
            assert!(matches!(e, SendError::NotConnected));
            assert_eq!(e.message(), "No hay conexión con el servidor");
        }
        SendPlan::Write(_) => panic!("must not write"),
    }
}

#[test]
fn transport_error_message_is_diagnostic() {
    let e = finish_send(Err("broken pipe".to_string())).unwrap_err();
    assert_eq!(e.message(), "broken pipe");
}

#[test]
fn server_url_is_serialized() {
    assert_eq!(SERVER_ADDRESS, "ws://100.48.213.255:8080");
    assert_eq!(server_url(), Ok("ws://100.48.213.255:8080/".to_string()));
}

#[test]
fn invalid_address_is_rejected() {
    assert_eq!(parse_address("not a url"), Err(AddressError::Invalid));
    assert_eq!(parse_address(""), Err(AddressError::Invalid));
    assert_eq!(parse_address("WS://Example.COM/chat"), Ok("ws://example.com/chat".to_string()));
}
