use relay_core::client::{Client, ClientAction, ClientEvent, Phase, Signal, DEFAULT_RETRY_SECS};
use relay_core::endpoint::Endpoint;
use relay_core::message::Frame;

fn client_for_tests() -> Client {
    Client::new(Endpoint::parse("ws://127.0.0.1:8080/ws").unwrap(), DEFAULT_RETRY_SECS)
}

fn connected_client() -> Client {
    let mut client = client_for_tests();
    assert_eq!(client.on_event(ClientEvent::ConnectSucceeded), ClientAction::Announce(Signal::Connected));
    client
}

#[test]
fn default_retry_interval_is_five_seconds() {
    assert_eq!(DEFAULT_RETRY_SECS, 5);
}

#[test]
fn new_client_starts_connecting() {
    let client = client_for_tests();
    assert_eq!(client.phase(), Phase::Connecting);
    assert_eq!(client.retry_secs(), 5);
    assert_eq!(client.endpoint().as_str(), "ws://127.0.0.1:8080/ws");
}

#[test]
fn successful_attempt_announces_connected() {
    let mut client = client_for_tests();
    assert_eq!(client.on_event(ClientEvent::ConnectSucceeded), ClientAction::Announce(Signal::Connected));
    assert_eq!(client.phase(), Phase::Connected);
}

#[test]
fn failed_attempt_announces_disconnected_and_waits() {
    let mut client = Client::new(Endpoint::parse("ws://relay.example/ws").unwrap(), 9);
    assert_eq!(
        client.on_event(ClientEvent::ConnectFailed),
        ClientAction::AnnounceAndWait(Signal::Disconnected, 9)
    );
    assert_eq!(client.phase(), Phase::Waiting);
    assert_eq!(client.on_event(ClientEvent::RetryDue), ClientAction::Connect);
    assert_eq!(client.phase(), Phase::Connecting);
}

#[test]
fn client_retries_as_often_as_it_fails() {
    let mut client = client_for_tests();
    for _ in 0..100 {
        assert_eq!(
            client.on_event(ClientEvent::ConnectFailed),
            ClientAction::AnnounceAndWait(Signal::Disconnected, 5)
        );
        assert_eq!(client.on_event(ClientEvent::RetryDue), ClientAction::Connect);
    }
    assert_eq!(client.on_event(ClientEvent::ConnectSucceeded), ClientAction::Announce(Signal::Connected));
}

#[test]
fn text_frame_is_shown_and_other_frames_are_not() {
    let mut client = connected_client();
    assert_eq!(
        client.on_event(ClientEvent::FrameReceived(Frame::Text(b"hello".to_vec()))),
        ClientAction::Surface(b"hello".to_vec())
    );
    for frame in [Frame::Binary(vec![1, 2, 3]), Frame::Ping, Frame::Pong, Frame::Close] {
        assert_eq!(client.on_event(ClientEvent::FrameReceived(frame)), ClientAction::Nothing);
        assert_eq!(client.phase(), Phase::Connected);
    }
}

#[test]
fn connected_client_transmits_what_it_is_asked_to_send() {
    let mut client = connected_client();
    assert_eq!(
        client.on_event(ClientEvent::SendRequested(String::from("hi there"))),
        ClientAction::Transmit(String::from("hi there"))
    );
    assert_eq!(client.phase(), Phase::Connected);
}

#[test]
fn text_to_send_is_handed_back_while_there_is_no_connection() {
    let mut client = client_for_tests();
    assert_eq!(
        client.on_event(ClientEvent::SendRequested(String::from("early"))),
        ClientAction::Defer(String::from("early"))
    );
    assert_eq!(client.phase(), Phase::Connecting);
    client.on_event(ClientEvent::ConnectFailed);
    assert_eq!(
        client.on_event(ClientEvent::SendRequested(String::from("later"))),
        ClientAction::Defer(String::from("later"))
    );
    assert_eq!(client.phase(), Phase::Waiting);
}

#[test]
fn dropped_connection_leads_to_a_wait_and_a_new_attempt() {
    let mut client = connected_client();
    assert_eq!(client.on_event(ClientEvent::ReceiveFailed), ClientAction::Wait(5));
    assert_eq!(client.phase(), Phase::Waiting);
    assert_eq!(client.on_event(ClientEvent::RetryDue), ClientAction::Connect);
    assert_eq!(client.on_event(ClientEvent::ConnectSucceeded), ClientAction::Announce(Signal::Connected));
    assert_eq!(client.on_event(ClientEvent::SendFailed), ClientAction::Wait(5));
    assert_eq!(client.phase(), Phase::Waiting);
}

#[test]
fn events_out_of_place_change_nothing() {
    let mut client = client_for_tests();
    for event in [
        ClientEvent::RetryDue,
        ClientEvent::ReceiveFailed,
        ClientEvent::SendFailed,
        ClientEvent::FrameReceived(Frame::Text(b"x".to_vec())),
    ] {
        assert_eq!(client.on_event(event), ClientAction::Nothing);
        assert_eq!(client.phase(), Phase::Connecting);
    }
    let mut client = connected_client();
    for event in [ClientEvent::RetryDue, ClientEvent::ConnectSucceeded, ClientEvent::ConnectFailed] {
        assert_eq!(client.on_event(event), ClientAction::Nothing);
        assert_eq!(client.phase(), Phase::Connected);
    }
    client.on_event(ClientEvent::ReceiveFailed);
    for event in [
        ClientEvent::ConnectSucceeded,
        ClientEvent::ConnectFailed,
        ClientEvent::ReceiveFailed,
        ClientEvent::SendFailed,
        ClientEvent::FrameReceived(Frame::Text(b"x".to_vec())),
    ] {
        assert_eq!(client.on_event(event), ClientAction::Nothing);
        assert_eq!(client.phase(), Phase::Waiting);
    }
}
