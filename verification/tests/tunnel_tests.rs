use aqueduct::message::types::{ClientServiceMessage, Message, MessageType, ServiceAuth};
use aqueduct::tunnel::control::{
    auth_request, control_on_message, control_on_secret, control_on_service,
    read_error_is_expected, ControlAction, ControlState, StopReason,
};
use aqueduct::tunnel::error::{expected_disconnect, IoErrorKind, TunnelError};
use aqueduct::tunnel::model::TunnelConfig;
use aqueduct::tunnel::proxy::{
    copy_end_reported, proxy_claim_id, proxy_control_step, session_step, CopyOutcome,
    ProxyControlAction, ProxyControlEvent, SessionAction, SessionStage,
};

fn config(user: Option<&str>, password: Option<&str>, token: Option<&str>) -> TunnelConfig {
    TunnelConfig {
        tunnel_host: "example.com".to_string(),
        tunnel_host_port: 30330,
        tunnel_service: "127.0.0.1".to_string(),
        tunnel_service_port: 80,
        tunnel_username: user.map(|s| s.to_string()),
        tunnel_password: password.map(|s| s.to_string()),
        tunnel_token: token.map(|s| s.to_string()),
    }
}

fn message(kind: MessageType, payload: &[u8]) -> Message {
    Message { version: 1, message_type: kind, message_payload: payload.to_vec() }
}

#[test]
fn login_prefers_the_token() {
    match auth_request(&config(Some("u"), Some("p"), Some("t"))) {
        Some(ServiceAuth::Token { token }) => assert_eq!(token, "t"),
        _ => panic!("expected token login"),
    }
    match auth_request(&config(Some("u"), Some("p"), None)) {
        Some(ServiceAuth::Password { username, password }) => {
            assert_eq!(username, "u");
            assert_eq!(password, "p");
        }
        _ => panic!("expected password login"),
    }
    assert!(auth_request(&config(Some("u"), None, None)).is_none());
    assert!(auth_request(&config(None, None, None)).is_none());
}

#[test]
fn control_messages() {
    let state = ControlState::new();
    assert!(matches!(control_on_message(&state, &message(MessageType::Heartbeat, b"")), ControlAction::SendHeartbeat));
    assert!(matches!(control_on_message(&state, &message(MessageType::Empty, b"")), ControlAction::Continue));
    assert!(matches!(
        control_on_message(&state, &message(MessageType::Close, b"")),
        ControlAction::Stop(StopReason::CloseRequested)
    ));
    match control_on_message(&state, &message(MessageType::Proxy, b"user-7")) {
        ControlAction::ForwardProxyId(id) => assert_eq!(id, "user-7"),
        _ => panic!("expected a forwarded id"),
    }
    assert!(matches!(
        control_on_message(&state, &message(MessageType::Proxy, &[0xff, 0xfe])),
        ControlAction::Stop(StopReason::MalformedMessage)
    ));
    match control_on_message(&state, &message(MessageType::Service, b"{\"secret\":\"\"}")) {
        ControlAction::ParseService(text) => assert_eq!(text, "{\"secret\":\"\"}"),
        _ => panic!("expected the service answer"),
    }
    assert!(matches!(
        control_on_message(&state, &message(MessageType::Service, &[0xc3])),
        ControlAction::Stop(StopReason::MalformedMessage)
    ));
    match control_on_message(&state, &message(MessageType::Error, b"quota exceeded")) {
        ControlAction::Stop(StopReason::ServerError(text)) => assert_eq!(text, "quota exceeded"),
        _ => panic!("expected a server error"),
    }
    match control_on_message(&state, &message(MessageType::Error, &[0x80])) {
        ControlAction::Stop(StopReason::ServerError(text)) => assert_eq!(text, "Invalid string"),
        _ => panic!("expected a server error"),
    }
}

#[test]
fn service_answer_opens_the_tunnel_once() {
    let answer = ClientServiceMessage { secret: "aGVsbG8gd29ybGQ=".to_string(), port: 40001 };
    let (state, action) = control_on_service(ControlState::new(), Some(answer));
    assert!(state.proxy_started);
    match action {
        ControlAction::StartProxy { secret, port } => {
            assert_eq!(secret, b"hello world".to_vec());
            assert_eq!(port, 40001);
        }
        _ => panic!("expected the tunnel to open"),
    }
    let again = ClientServiceMessage { secret: "aGVsbG8gd29ybGQ=".to_string(), port: 40002 };
    let (state, action) = control_on_service(state, Some(again));
    assert!(state.proxy_started);
    assert!(matches!(action, ControlAction::Stop(StopReason::MalformedMessage)));
}

#[test]
fn service_answer_errors() {
    let bad = ClientServiceMessage { secret: "not base64!".to_string(), port: 1 };
    let (state, action) = control_on_service(ControlState::new(), Some(bad));
    assert!(!state.proxy_started);
    assert!(matches!(action, ControlAction::Stop(StopReason::InvalidSecret)));
    let (state, action) = control_on_service(ControlState::new(), None);
    assert!(!state.proxy_started);
    assert!(matches!(action, ControlAction::Stop(StopReason::MalformedMessage)));
    let (state, action) = control_on_secret(ControlState::new(), None, 5);
    assert!(!state.proxy_started);
    assert!(matches!(action, ControlAction::Stop(StopReason::InvalidSecret)));
}

#[test]
fn ordinary_disconnects() {
    assert!(expected_disconnect(IoErrorKind::BrokenPipe));
    assert!(expected_disconnect(IoErrorKind::ConnectionReset));
    assert!(expected_disconnect(IoErrorKind::UnexpectedEof));
    assert!(!expected_disconnect(IoErrorKind::Other));
    assert!(read_error_is_expected(&TunnelError::IoError(IoErrorKind::ConnectionReset)));
    assert!(!read_error_is_expected(&TunnelError::IoError(IoErrorKind::Other)));
    assert!(!read_error_is_expected(&TunnelError::ServerClosed));
    assert!(!copy_end_reported(&CopyOutcome::Finished));
    assert!(!copy_end_reported(&CopyOutcome::Cancelled));
    assert!(!copy_end_reported(&CopyOutcome::Failed(IoErrorKind::BrokenPipe)));
    assert!(copy_end_reported(&CopyOutcome::Failed(IoErrorKind::Other)));
}

#[test]
fn claim_id_is_base64_hmac_sha256() {
    let id = proxy_claim_id(b"secret", "abc");
    assert_eq!(id, "mUba1OAOkT/Ivo5dP34RCkqegy+D+wnDRShdeGONig4=");
    assert_eq!(id.len(), 44);
    assert_ne!(proxy_claim_id(b"secret", "abd"), id);
}

#[test]
fn proxy_task_decisions() {
    assert!(matches!(proxy_control_step(ProxyControlEvent::Cancelled), ProxyControlAction::Stop));
    assert!(matches!(proxy_control_step(ProxyControlEvent::SessionEnded), ProxyControlAction::Wait));
    assert!(matches!(
        proxy_control_step(ProxyControlEvent::RedirectId(None)),
        ProxyControlAction::CancelAndStop
    ));
    match proxy_control_step(ProxyControlEvent::RedirectId(Some("r1".to_string()))) {
        ProxyControlAction::Spawn(id) => assert_eq!(id, "r1"),
        _ => panic!("expected a session"),
    }
}

#[test]
fn proxy_session_decisions() {
    assert!(matches!(
        session_step(SessionStage::ConnectServer, true),
        SessionAction::Proceed(SessionStage::Claim)
    ));
    assert!(matches!(session_step(SessionStage::ConnectServer, false), SessionAction::Abort));
    assert!(matches!(
        session_step(SessionStage::Claim, true),
        SessionAction::Proceed(SessionStage::ConnectService)
    ));
    assert!(matches!(session_step(SessionStage::Claim, false), SessionAction::CancelAndAbort));
    assert!(matches!(
        session_step(SessionStage::ConnectService, true),
        SessionAction::Proceed(SessionStage::Copy)
    ));
    assert!(matches!(session_step(SessionStage::ConnectService, false), SessionAction::Abort));
    assert!(matches!(session_step(SessionStage::Copy, true), SessionAction::Finish));
}

#[test]
fn control_run_answers_each_heartbeat_and_forwards_ids_in_order() {
    let state = ControlState::new();
    let messages = vec![
        message(MessageType::Heartbeat, b""),
        message(MessageType::Proxy, b"first"),
        message(MessageType::Empty, b""),
        message(MessageType::Heartbeat, b""),
        message(MessageType::Proxy, b"second"),
        message(MessageType::Heartbeat, b""),
    ];
    let mut replies = 0;
    let mut forwarded = Vec::new();
    for m in &messages {
        match control_on_message(&state, m) {
            ControlAction::SendHeartbeat => {
                assert_eq!(m.message_type, MessageType::Heartbeat);
                replies += 1;
            }
            ControlAction::ForwardProxyId(id) => forwarded.push(id),
            ControlAction::Continue => {}
            _ => panic!("unexpected action"),
        }
    }
    assert_eq!(replies, 3);
    assert_eq!(forwarded, vec!["first".to_string(), "second".to_string()]);
}
