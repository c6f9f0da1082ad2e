use scpsl_wrapper::config::{CliArgs, Config};
use scpsl_wrapper::messages::{IncomingMessage, OutgoingMessage, StdoutMessage};
use scpsl_wrapper::websocket::{
    handle_incoming_message, IncomingFrame, Session, ReconnectAction, ReconnectEvent, ReconnectPolicy,
    SessionAction, SessionEvent, WebSocketClient, WsError, WsResult, AUTH_DENIED_MARKER,
};

fn config() -> Config {
    Config::load(CliArgs {
        server_bin: "/bin/cat".to_string(),
        port: 7777,
        api_url: "ws://localhost:8000/server/rcon/connect".to_string(),
        server_name: "server1".to_string(),
        secret_key: "secret".to_string(),
        server_type: "SCPSL".to_string(),
        reconnect_secs: 5,
        strip_ansi: true,
        buffer_size: 10000,
    })
}

fn failed() -> WsResult<()> {
    Err(WsError::ConnectionFailed("Connection refused".to_string()))
}

#[test]
fn reconnect_delay_doubles_up_to_sixty() {
    let mut p = ReconnectPolicy::new(5);
    let mut waits = Vec::new();
    for _ in 0..6 {
        match p.session_ended(&failed()) {
            ReconnectAction::Wait(d) => waits.push(d),
            other => panic!("a refused connection led to {:?}", other),
        }
        p.wait_elapsed();
    }
    assert_eq!(waits, vec![5, 10, 20, 40, 60, 60]);
}

#[test]
fn reconnect_delay_resets_after_a_normal_end() {
    let mut p = ReconnectPolicy::new(5);
    p.session_ended(&failed());
    p.wait_elapsed();
    p.wait_elapsed();
    assert_eq!(p.delay(), 20);
    assert_eq!(p.session_ended(&Ok(())), ReconnectAction::Wait(5));
    assert_eq!(p.delay(), 5);
}

#[test]
fn reconnect_delay_above_the_maximum_is_used_once() {
    let mut p = ReconnectPolicy::new(100);
    assert_eq!(p.session_ended(&failed()), ReconnectAction::Wait(100));
    p.wait_elapsed();
    assert_eq!(p.session_ended(&failed()), ReconnectAction::Wait(60));
}

#[test]
fn refused_credentials_stop_the_wrapper_with_code_two() {
    let mut p = ReconnectPolicy::new(5);
    let denied: WsResult<()> = Err(WsError::ConnectionFailed(AUTH_DENIED_MARKER.to_string()));
    assert_eq!(p.session_ended(&denied), ReconnectAction::Exit(2));
    assert_eq!(p.delay(), 5);
}

#[test]
fn failures_before_connecting_keep_the_delay() {
    let mut p = ReconnectPolicy::new(7);
    p.session_ended(&failed());
    p.wait_elapsed();
    for e in [
        WsError::UrlError("u".to_string()),
        WsError::ConnectionFailed("AUTH_DENIED ".to_string()),
        WsError::ConnectionFailed("refused".to_string()),
    ] {
        assert_eq!(p.session_ended(&Err(e)), ReconnectAction::Wait(14));
    }
}

#[test]
fn a_session_that_got_a_connection_resets_the_delay() {
    for e in [
        WsError::SendFailed("x".to_string()),
        WsError::ReceiveFailed("y".to_string()),
        WsError::ConnectionClosed,
        WsError::JsonError("z".to_string()),
    ] {
        let mut p = ReconnectPolicy::new(5);
        assert_eq!(p.session_ended(&failed()), ReconnectAction::Wait(5));
        p.wait_elapsed();
        assert_eq!(p.delay(), 10);
        assert_eq!(p.session_ended(&Err(e)), ReconnectAction::Wait(5));
        assert_eq!(p.delay(), 5);
    }
}

#[test]
fn client_steps_connect_wait_and_stop() {
    let mut p = ReconnectPolicy::new(5);
    assert_eq!(p.step(ReconnectEvent::Start), ReconnectAction::Connect);
    assert_eq!(p.step(ReconnectEvent::SessionEnded(failed())), ReconnectAction::Wait(5));
    assert_eq!(p.step(ReconnectEvent::WaitElapsed), ReconnectAction::Connect);
    assert_eq!(p.step(ReconnectEvent::SessionEnded(failed())), ReconnectAction::Wait(10));
    assert_eq!(p.step(ReconnectEvent::WaitElapsed), ReconnectAction::Connect);
    assert_eq!(p.step(ReconnectEvent::SessionEnded(Ok(()))), ReconnectAction::Wait(5));
    assert_eq!(p.step(ReconnectEvent::ShutdownRequested), ReconnectAction::Stop);
    let denied = Err(WsError::ConnectionFailed(AUTH_DENIED_MARKER.to_string()));
    assert_eq!(p.step(ReconnectEvent::SessionEnded(denied)), ReconnectAction::Exit(2));
}

#[test]
fn error_descriptions() {
    assert_eq!(WsError::ConnectionFailed("x".to_string()).describe(), "Ошибка подключения: x");
    assert_eq!(WsError::SendFailed("x".to_string()).describe(), "Ошибка отправки: x");
    assert_eq!(WsError::ReceiveFailed("x".to_string()).describe(), "Ошибка получения: x");
    assert_eq!(WsError::ConnectionClosed.describe(), "Соединение закрыто");
    assert_eq!(WsError::JsonError("x".to_string()).describe(), "Ошибка JSON: x");
    assert_eq!(WsError::UrlError("x".to_string()).describe(), "Ошибка URL: x");
    assert!(WsError::ConnectionFailed(AUTH_DENIED_MARKER.to_string()).is_auth_denied());
    assert!(!WsError::SendFailed(AUTH_DENIED_MARKER.to_string()).is_auth_denied());
}

fn stdin(server: &str, content: &str) -> IncomingFrame {
    IncomingFrame::Text(Some(IncomingMessage::Stdin {
        server: server.to_string(),
        content: content.to_string(),
    }))
}

#[test]
fn commands_for_this_server_are_forwarded() {
    assert_eq!(handle_incoming_message(stdin("server1", "reload"), "server1"), Ok(Some("reload".to_string())));
}

#[test]
fn commands_for_other_servers_are_ignored() {
    assert_eq!(handle_incoming_message(stdin("server2", "reload"), "server1"), Ok(None));
}

#[test]
fn unreadable_and_other_frames_are_ignored() {
    assert_eq!(handle_incoming_message(IncomingFrame::Text(None), "server1"), Ok(None));
    let auth_ok = IncomingFrame::Text(Some(IncomingMessage::AuthSuccess { server: "server1".to_string() }));
    assert_eq!(handle_incoming_message(auth_ok, "server1"), Ok(None));
    assert_eq!(handle_incoming_message(IncomingFrame::Text(Some(IncomingMessage::Unknown)), "server1"), Ok(None));
    assert_eq!(handle_incoming_message(IncomingFrame::Other, "server1"), Ok(None));
}

#[test]
fn close_frame_ends_the_connection() {
    assert_eq!(handle_incoming_message(IncomingFrame::Close, "server1"), Err(WsError::ConnectionClosed));
}

const AUTH: &str = r#"{"type":"auth","server":"server1","server_type":"SCPSL","secret_key":"secret"}"#;

#[test]
fn first_frame_after_connecting_is_the_auth_message() {
    let mut session = Session::new(&config());
    assert_eq!(session.step(SessionEvent::Connected), SessionAction::Send(vec![AUTH.to_string()]));
    assert_eq!(session.step(SessionEvent::Connected), SessionAction::Continue);
}

#[test]
fn auth_message_goes_before_an_early_outgoing_message() {
    let mut session = Session::new(&config());
    let line = OutgoingMessage::Stdout(StdoutMessage::new("server1", "early".to_string()));
    assert_eq!(
        session.step(SessionEvent::Outgoing(line)),
        SessionAction::Send(vec![
            AUTH.to_string(),
            r#"{"type":"stdout","server":"server1","content":"early"}"#.to_string()
        ])
    );
    assert_eq!(session.step(SessionEvent::Connected), SessionAction::Continue);
}

#[test]
fn session_events_and_their_actions() {
    let mut s = Session::new(&config());
    assert_eq!(s.step(SessionEvent::Connected), SessionAction::Send(vec![AUTH.to_string()]));
    let line = OutgoingMessage::Stdout(StdoutMessage::new("server1", "hi".to_string()));
    assert_eq!(
        s.step(SessionEvent::Outgoing(line)),
        SessionAction::Send(vec![r#"{"type":"stdout","server":"server1","content":"hi"}"#.to_string()])
    );
    assert_eq!(s.step(SessionEvent::OutgoingClosed), SessionAction::CloseAndFinish);
    assert_eq!(
        s.step(SessionEvent::Incoming(stdin("server1", "bc hi"))),
        SessionAction::Forward("bc hi".to_string())
    );
    assert_eq!(s.step(SessionEvent::Incoming(stdin("x", "bc hi"))), SessionAction::Continue);
    assert_eq!(
        s.step(SessionEvent::Incoming(IncomingFrame::Close)),
        SessionAction::Finish(WsError::ConnectionClosed)
    );
    assert_eq!(
        s.step(SessionEvent::IncomingFailed("reset".to_string())),
        SessionAction::Finish(WsError::ReceiveFailed("reset".to_string()))
    );
    assert_eq!(s.step(SessionEvent::IncomingEnded), SessionAction::Finish(WsError::ConnectionClosed));
    assert_eq!(
        s.step(SessionEvent::SendFailed("broken pipe".to_string())),
        SessionAction::Finish(WsError::SendFailed("broken pipe".to_string()))
    );
    assert_eq!(
        s.step(SessionEvent::ConnectFailed("refused".to_string())),
        SessionAction::Finish(WsError::ConnectionFailed("refused".to_string()))
    );
    assert_eq!(
        s.step(SessionEvent::UrlInvalid("bad".to_string())),
        SessionAction::Finish(WsError::UrlError("bad".to_string()))
    );
}

#[test]
fn client_holds_its_configuration() {
    let (_otx, orx) = tokio::sync::mpsc::channel::<OutgoingMessage>(4);
    let (itx, _irx) = tokio::sync::mpsc::channel::<String>(4);
    let client = WebSocketClient::new(config(), orx, itx);
    assert_eq!(client.config.server_name, "server1");
    assert_eq!(client.config.reconnect_secs, 5);
}
