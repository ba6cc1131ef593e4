use crate::outside::{base64_encode, base64_standard_encoded, hmac_sha256, hmac_sha256_tag};
use crate::tunnel::error::{expected_disconnect, is_expected_disconnect, IoErrorKind};
use vstd::prelude::*;
use vstd::string::*;
use vstd::utf8::{encode_scalar, encode_utf8};

verus! {

/// The size of each of the two buffers that copy between an external user
/// and the service.
pub const PROXY_BUFFER_SIZE: usize = 32768;

/// What wakes the task that runs the proxy sessions.
pub enum ProxyControlEvent {
    /// The tunnel is being shut down.
    Cancelled,
    /// One proxy session finished.
    SessionEnded,
    /// The control connection handed on an external connection id; `None`
    /// where it has closed.
    RedirectId(Option<String>),
}

/// What that task does next.
pub enum ProxyControlAction {
    Stop,
    /// Shut the tunnel down, then stop.
    CancelAndStop,
    Wait,
    /// Start a proxy session for this external connection id.
    Spawn(String),
}

/// The decision of the proxy task on `event`.
pub fn proxy_control_step(event: ProxyControlEvent) -> (r: ProxyControlAction)
    ensures
        match event {
            ProxyControlEvent::Cancelled => r is Stop,
            ProxyControlEvent::SessionEnded => r is Wait,
            ProxyControlEvent::RedirectId(None) => r is CancelAndStop,
            ProxyControlEvent::RedirectId(Some(id)) => r matches ProxyControlAction::Spawn(s)
                && s@ == id@,
        },
{
    match event {
        ProxyControlEvent::Cancelled => ProxyControlAction::Stop,
        ProxyControlEvent::SessionEnded => ProxyControlAction::Wait,
        ProxyControlEvent::RedirectId(None) => ProxyControlAction::CancelAndStop,
        ProxyControlEvent::RedirectId(Some(id)) => ProxyControlAction::Spawn(id),
    }
}

/// The id with which a proxy session claims its external connection: the
/// base64 text of the HMAC-SHA256 tag of the connection id under the secret
/// of the tunnel.
pub open spec fn claim_id(secret: Seq<u8>, redirect_id: Seq<char>) -> Seq<char> {
    base64_standard_encoded(hmac_sha256_tag(secret, encode_utf8(redirect_id)))
}

/// Computes the claim id of the external connection `redirect_id`.
pub fn proxy_claim_id(secret: &[u8], redirect_id: &str) -> (r: String)
    ensures
        r@ == claim_id(secret@, redirect_id@),
        r@ == base64_standard_encoded(hmac_sha256_tag(secret@, redirect_id.spec_bytes())),
        r@.len() == 44,
{
    let tag = hmac_sha256(secret, redirect_id.as_bytes());
    base64_encode(tag.as_slice())
}

/// Where a proxy session stands.
pub enum SessionStage {
    /// Connecting to the tunnel server (and, alongside, to the service).
    ConnectServer,
    /// Sending the claim of the external connection to the server.
    Claim,
    /// Waiting for the connection to the service.
    ConnectService,
    /// Copying between the external user and the service.
    Copy,
}

/// What a proxy session does after a stage succeeded or failed.
pub enum SessionAction {
    Proceed(SessionStage),
    /// Give up this session.
    Abort,
    /// Give up this session and cancel it, with what it started.
    CancelAndAbort,
    /// The copying is over: the session ends.
    Finish,
}

/// The decision of a proxy session after `stage`: on to the next stage when
/// it succeeded; a failed claim also cancels the session; the copy stage
/// always ends it.
pub fn session_step(stage: SessionStage, succeeded: bool) -> (r: SessionAction)
    ensures
        match stage {
            SessionStage::ConnectServer => if succeeded {
                r == SessionAction::Proceed(SessionStage::Claim)
            } else {
                r == SessionAction::Abort
            },
            SessionStage::Claim => if succeeded {
                r == SessionAction::Proceed(SessionStage::ConnectService)
            } else {
                r == SessionAction::CancelAndAbort
            },
            SessionStage::ConnectService => if succeeded {
                r == SessionAction::Proceed(SessionStage::Copy)
            } else {
                r == SessionAction::Abort
            },
            SessionStage::Copy => r == SessionAction::Finish,
        },
{
    match stage {
        SessionStage::ConnectServer => if succeeded {
            SessionAction::Proceed(SessionStage::Claim)
        } else {
            SessionAction::Abort
        },
        SessionStage::Claim => if succeeded {
            SessionAction::Proceed(SessionStage::ConnectService)
        } else {
            SessionAction::CancelAndAbort
        },
        SessionStage::ConnectService => if succeeded {
            SessionAction::Proceed(SessionStage::Copy)
        } else {
            SessionAction::Abort
        },
        SessionStage::Copy => SessionAction::Finish,
    }
}

/// How the copying between an external user and the service ended.
pub enum CopyOutcome {
    /// One side closed the connection.
    Finished,
    Failed(IoErrorKind),
    /// The tunnel was shut down.
    Cancelled,
}

/// Whether the end of a proxy session is worth reporting: only a failure
/// other than the peer going away.
pub fn copy_end_reported(outcome: &CopyOutcome) -> (r: bool)
    ensures
        r == (outcome matches CopyOutcome::Failed(kind) && !is_expected_disconnect(*kind)),
{
    match outcome {
        CopyOutcome::Failed(kind) => !expected_disconnect(*kind),
        _ => false,
    }
}

/// The claim id is keyed by the whole secret and covers every byte of the
/// id: it is the base64 text of the HMAC-SHA256 tag, under `secret`, of the
/// complete UTF-8 encoding of `redirect_id`, for ids of any length.
pub proof fn lemma_claim_id_covers_whole_id(secret: Seq<u8>, redirect_id: Seq<char>)
    ensures
        claim_id(secret, redirect_id) == base64_standard_encoded(
            hmac_sha256_tag(secret, encode_utf8(redirect_id)),
        ),
        encode_utf8(redirect_id).len() >= redirect_id.len(),
{
    lemma_utf8_len(redirect_id);
}

proof fn lemma_utf8_len(s: Seq<char>)
    ensures
        encode_utf8(s).len() >= s.len(),
    decreases s.len(),
{
    if s.len() > 0 {
        lemma_utf8_len(s.drop_first());
        assert(encode_scalar(s[0] as u32).len() >= 1);
    }
}

} // verus!
