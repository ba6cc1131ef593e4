use crate::message::types::{ClientServiceMessage, Message, MessageType, ServiceAuth};
use crate::outside::{base64_decode, base64_standard_decoded, utf8_text};
use crate::tunnel::error::{expected_disconnect, is_expected_disconnect, TunnelError};
use crate::tunnel::model::TunnelConfig;
use vstd::prelude::*;
use vstd::string::*;
use vstd::utf8::*;

verus! {

/// How the client logs in, decided from its configuration: with the token
/// where there is one, else with user name and password where both are
/// there; `None` (no login, the connection is dropped) otherwise.
pub fn auth_request(config: &TunnelConfig) -> (r: Option<ServiceAuth>)
    ensures
        match config.tunnel_token {
            Some(t) => r matches Some(ServiceAuth::Token { token }) && token@ == t@,
            None => match (config.tunnel_username, config.tunnel_password) {
                (Some(u), Some(p)) => r matches Some(ServiceAuth::Password { username, password })
                    && username@ == u@ && password@ == p@,
                _ => r is None,
            },
        },
{
    match &config.tunnel_token {
        Some(token) => Some(ServiceAuth::Token { token: token.clone() }),
        None => match (&config.tunnel_username, &config.tunnel_password) {
            (Some(username), Some(password)) => Some(
                ServiceAuth::Password { username: username.clone(), password: password.clone() },
            ),
            _ => None,
        },
    }
}

/// What the control connection has done so far: whether the tunnel was
/// opened (its proxy sessions started).
pub struct ControlState {
    pub proxy_started: bool,
}

impl ControlState {
    /// The state of a control connection that was just opened.
    pub fn new() -> (r: ControlState)
        ensures
            !r.proxy_started,
    {
        ControlState { proxy_started: false }
    }
}

/// Why the control connection is closed.
pub enum StopReason {
    /// The server sent something that is not a well-formed message.
    MalformedMessage,
    /// The secret that the server sent is not base64.
    InvalidSecret,
    /// The server asked to close.
    CloseRequested,
    /// The server reported an error: its text.
    ServerError(String),
}

/// What the client does next on its control connection.
pub enum ControlAction {
    /// Answer a heartbeat.
    SendHeartbeat,
    /// Read this text as the server's answer to the service request.
    ParseService(String),
    /// Open the tunnel: proxy sessions are keyed with `secret`; external
    /// users reach the service on `port` of the server.
    StartProxy { secret: Vec<u8>, port: u16 },
    /// Hand this external connection id to the proxy sessions.
    ForwardProxyId(String),
    /// Nothing to do: read on.
    Continue,
    Stop(StopReason),
}

/// The text that a server's error message is reported with: its payload
/// where that is UTF-8.
pub open spec fn error_text_is(payload: Seq<u8>, text: Seq<char>) -> bool {
    if valid_utf8(payload) {
        text == decode_utf8(payload)
    } else {
        text == "Invalid string"@
    }
}

/// What the client does on a message from the server.
pub open spec fn message_action_is(message: Message, r: ControlAction) -> bool {
    let payload = message.message_payload@;
    match message.message_type {
        MessageType::Heartbeat => r is SendHeartbeat,
        MessageType::Service => if valid_utf8(payload) {
            r matches ControlAction::ParseService(text) && text@ == decode_utf8(payload)
        } else {
            r matches ControlAction::Stop(StopReason::MalformedMessage)
        },
        MessageType::Proxy => if valid_utf8(payload) {
            r matches ControlAction::ForwardProxyId(id) && id@ == decode_utf8(payload)
        } else {
            r matches ControlAction::Stop(StopReason::MalformedMessage)
        },
        MessageType::Close => r matches ControlAction::Stop(StopReason::CloseRequested),
        MessageType::Empty => r is Continue,
        MessageType::Error => r matches ControlAction::Stop(StopReason::ServerError(text))
            && error_text_is(payload, text@),
    }
}

/// What the client does with the secret from the server's answer to its
/// service request: `None` where the secret was not base64.
pub open spec fn secret_step_is(
    before: ControlState,
    secret: Option<Seq<u8>>,
    port: u16,
    after: ControlState,
    r: ControlAction,
) -> bool {
    match secret {
        None => after == before && r matches ControlAction::Stop(StopReason::InvalidSecret),
        Some(s) => if before.proxy_started {
            after == before && r matches ControlAction::Stop(StopReason::MalformedMessage)
        } else {
            after.proxy_started && (r matches ControlAction::StartProxy { secret, port: p }
                && secret@ == s && p == port)
        },
    }
}

/// One step of the control connection keeps the record of the tunnel: it is
/// opened only by a `StartProxy`, only when it was not open, and stays open.
pub open spec fn control_transition_ok(
    before: ControlState,
    action: ControlAction,
    after: ControlState,
) -> bool {
    &&& after.proxy_started == (before.proxy_started || action is StartProxy)
    &&& action is StartProxy ==> !before.proxy_started
}

/// The action on a message from the server. Service and proxy messages must
/// carry UTF-8 text; an error message is reported with its text.
pub fn control_on_message(state: &ControlState, message: &Message) -> (r: ControlAction)
    ensures
        message_action_is(*message, r),
        control_transition_ok(*state, r, *state),
{
    match message.message_type {
        MessageType::Heartbeat => ControlAction::SendHeartbeat,
        MessageType::Service => match utf8_text(message.message_payload.as_slice()) {
            Some(text) => ControlAction::ParseService(text),
            None => ControlAction::Stop(StopReason::MalformedMessage),
        },
        MessageType::Proxy => match utf8_text(message.message_payload.as_slice()) {
            Some(id) => ControlAction::ForwardProxyId(id),
            None => ControlAction::Stop(StopReason::MalformedMessage),
        },
        MessageType::Close => ControlAction::Stop(StopReason::CloseRequested),
        MessageType::Empty => ControlAction::Continue,
        MessageType::Error => {
            let text = match utf8_text(message.message_payload.as_slice()) {
                Some(text) => text,
                None => String::from_str("Invalid string"),
            };
            ControlAction::Stop(StopReason::ServerError(text))
        },
    }
}

/// The step on the server's answer to the service request, read from its
/// text (`None` where the text was not such an answer): the secret is
/// decoded from base64, and the tunnel opened unless it already was.
pub fn control_on_service(state: ControlState, answer: Option<ClientServiceMessage>) -> (r: (
    ControlState,
    ControlAction,
))
    ensures
        match answer {
            None => r.0 == state && r.1 matches ControlAction::Stop(StopReason::MalformedMessage),
            Some(a) => secret_step_is(
                state,
                base64_standard_decoded(a.secret@),
                a.port,
                r.0,
                r.1,
            ),
        },
        control_transition_ok(state, r.1, r.0),
        match answer {
            Some(a) => match base64_standard_decoded(a.secret@) {
                Some(k) => !state.proxy_started ==> (r.1 matches ControlAction::StartProxy {
                    secret: started,
                    port: p,
                } && started@ == k && p == a.port),
                None => true,
            },
            None => true,
        },
{
    match answer {
        None => (state, ControlAction::Stop(StopReason::MalformedMessage)),
        Some(answer) => {
            let secret = base64_decode(answer.secret.as_str());
            control_on_secret(state, secret, answer.port)
        },
    }
}

/// The step on the decoded secret (`None` where it was not base64) and the
/// port of the server's answer.
pub fn control_on_secret(state: ControlState, secret: Option<Vec<u8>>, port: u16) -> (r: (
    ControlState,
    ControlAction,
))
    ensures
        secret_step_is(state, secret.deep_view(), port, r.0, r.1),
        control_transition_ok(state, r.1, r.0),
        match secret {
            Some(k) => !state.proxy_started ==> (r.1 matches ControlAction::StartProxy {
                secret: started,
                port: p,
            } && started@ == k@ && p == port && r.0.proxy_started),
            None => true,
        },
{
    match secret {
        None => (state, ControlAction::Stop(StopReason::InvalidSecret)),
        Some(secret) => {
            assert(secret.deep_view() =~= secret@);
            if state.proxy_started {
                (state, ControlAction::Stop(StopReason::MalformedMessage))
            } else {
                (ControlState { proxy_started: true }, ControlAction::StartProxy { secret, port })
            }
        },
    }
}

/// Whether a failed read ended the control connection in the ordinary way
/// (the server went away), rather than by an error to report.
pub fn read_error_is_expected(error: &TunnelError) -> (r: bool)
    ensures
        r == (error matches TunnelError::IoError(kind) && is_expected_disconnect(*kind)),
{
    match error {
        TunnelError::IoError(kind) => expected_disconnect(*kind),
        _ => false,
    }
}

proof fn lemma_started_stays(states: Seq<ControlState>, actions: Seq<ControlAction>, i: int, k: int)
    requires
        states.len() == actions.len() + 1,
        forall|j: int|
            0 <= j < actions.len() ==> #[trigger] control_transition_ok(
                states[j],
                actions[j],
                states[j + 1],
            ),
        0 <= i <= k < states.len(),
        states[i].proxy_started,
    ensures
        states[k].proxy_started,
    decreases k - i,
{
    if i < k {
        assert(control_transition_ok(states[i], actions[i], states[i + 1]));
        lemma_started_stays(states, actions, i + 1, k);
    }
}

/// A control connection opens its tunnel at most once: along any run of
/// steps that each keep `control_transition_ok`, from a state where the
/// tunnel is not open, no two actions start the proxy.
pub proof fn lemma_tunnel_opened_at_most_once(
    states: Seq<ControlState>,
    actions: Seq<ControlAction>,
)
    requires
        states.len() == actions.len() + 1,
        !states[0].proxy_started,
        forall|j: int|
            0 <= j < actions.len() ==> #[trigger] control_transition_ok(
                states[j],
                actions[j],
                states[j + 1],
            ),
    ensures
        forall|i: int, j: int|
            0 <= i < j < actions.len() ==> !(#[trigger] actions[i] is StartProxy
                && #[trigger] actions[j] is StartProxy),
{
    assert forall|i: int, j: int|
        0 <= i < j < actions.len() implies !(#[trigger] actions[i] is StartProxy
        && #[trigger] actions[j] is StartProxy) by {
        if actions[i] is StartProxy {
            assert(control_transition_ok(states[i], actions[i], states[i + 1]));
            lemma_started_stays(states, actions, i + 1, j);
            assert(control_transition_ok(states[j], actions[j], states[j + 1]));
        }
    }
}

/// How many of `messages` are heartbeats.
pub open spec fn heartbeat_count(messages: Seq<Message>) -> nat
    decreases messages.len(),
{
    if messages.len() == 0 {
        0
    } else {
        heartbeat_count(messages.drop_last()) + if messages.last().message_type
            == MessageType::Heartbeat {
            1nat
        } else {
            0nat
        }
    }
}

/// How many of `actions` answer a heartbeat.
pub open spec fn reply_count(actions: Seq<ControlAction>) -> nat
    decreases actions.len(),
{
    if actions.len() == 0 {
        0
    } else {
        reply_count(actions.drop_last()) + if actions.last() is SendHeartbeat {
            1nat
        } else {
            0nat
        }
    }
}

/// The texts of the proxy messages among `messages`, in order.
pub open spec fn proxy_texts(messages: Seq<Message>) -> Seq<Seq<char>>
    decreases messages.len(),
{
    if messages.len() == 0 {
        Seq::empty()
    } else {
        proxy_texts(messages.drop_last()) + if messages.last().message_type == MessageType::Proxy {
            seq![decode_utf8(messages.last().message_payload@)]
        } else {
            Seq::empty()
        }
    }
}

/// The external connection ids that `actions` hand on, in order.
pub open spec fn forwarded_ids(actions: Seq<ControlAction>) -> Seq<Seq<char>>
    decreases actions.len(),
{
    if actions.len() == 0 {
        Seq::empty()
    } else {
        forwarded_ids(actions.drop_last()) + match actions.last() {
            ControlAction::ForwardProxyId(id) => seq![id@],
            _ => Seq::empty(),
        }
    }
}

/// Over a run of the control connection, where `actions[i]` is what
/// `control_on_message` gave for the `i`-th message read: each heartbeat is
/// answered right after it was read and nothing else is, so there are as
/// many answers as heartbeats; and where the run was not stopped, the
/// external connection ids are handed on exactly as the proxy messages
/// carried them, in the order they arrived.
pub proof fn lemma_control_run(messages: Seq<Message>, actions: Seq<ControlAction>)
    requires
        actions.len() == messages.len(),
        forall|i: int|
            0 <= i < messages.len() ==> #[trigger] message_action_is(messages[i], actions[i]),
    ensures
        forall|i: int|
            0 <= i < messages.len() ==> (#[trigger] actions[i] is SendHeartbeat <==> messages[i].message_type
                == MessageType::Heartbeat),
        reply_count(actions) == heartbeat_count(messages),
        (forall|i: int| 0 <= i < actions.len() ==> !(#[trigger] actions[i] is Stop))
            ==> forwarded_ids(actions) == proxy_texts(messages),
    decreases messages.len(),
{
    assert forall|i: int|
        0 <= i < messages.len() implies (#[trigger] actions[i] is SendHeartbeat
        <==> messages[i].message_type == MessageType::Heartbeat) by {
        assert(message_action_is(messages[i], actions[i]));
    }
    if messages.len() > 0 {
        let n = messages.len() - 1;
        let m0 = messages.drop_last();
        let a0 = actions.drop_last();
        assert forall|i: int| 0 <= i < m0.len() implies #[trigger] message_action_is(
            m0[i],
            a0[i],
        ) by {
            assert(m0[i] == messages[i]);
            assert(a0[i] == actions[i]);
            assert(message_action_is(messages[i], actions[i]));
        }
        lemma_control_run(m0, a0);
        assert(message_action_is(messages[n], actions[n]));
        if forall|i: int| 0 <= i < actions.len() ==> !(#[trigger] actions[i] is Stop) {
            assert forall|i: int| 0 <= i < a0.len() implies !(#[trigger] a0[i] is Stop) by {
                assert(a0[i] == actions[i]);
            }
            assert(!(actions[n] is Stop));
        }
    }
}

/// On the first service answer whose secret decodes, the tunnel is opened
/// with exactly the decoded bytes, whatever their length, and the port of
/// the answer.
pub proof fn lemma_secret_handed_whole(
    before: ControlState,
    decoded: Seq<u8>,
    port: u16,
    after: ControlState,
    r: ControlAction,
)
    requires
        !before.proxy_started,
        secret_step_is(before, Some(decoded), port, after, r),
    ensures
        r matches ControlAction::StartProxy { secret, port: p } && secret@ == decoded && p == port,
        after.proxy_started,
{
}

} // verus!
