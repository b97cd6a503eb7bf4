//! Messages of the main background service, and the decision it makes for
//! each request it receives. The service's loop itself (awaiting envelopes,
//! sleeping, spawning the authentication sub-worker) runs outside the
//! library; the library decides, per request payload, which action the
//! worker is to take.

use vstd::prelude::*;
use tokio::sync::mpsc;
use crate::authenticate::AuthMessage;
use crate::channels::Message;

verus! {

/// Messages exchanged with the main background service.
pub enum AsyncServiceMessage {
    /// Request: echo back one more than the carried number.
    /// Reply: the echoed number.
    Echo(u32),
    /// Request: start an authentication sub-worker.
    StartAuth,
    /// Reply: the send endpoint of a freshly started authentication
    /// sub-worker's inbound channel.
    AuthChannel(mpsc::Sender<Message<AuthMessage>>),
}

/// What the main service is to do for one received request payload.
pub enum ServiceAction {
    /// Reply with an `Echo` of the carried number.
    ReplyEcho(u32),
    /// Start an authentication sub-worker and reply with the send endpoint
    /// of its inbound channel.
    BeginAuthSession,
    /// The payload is not a request the service answers; drop its reply
    /// slot unwritten, so the sender sees the slot close.
    Unsupported,
}

/// The decision of the main service for one request payload: an `Echo`
/// request is answered with one more than its number.
pub open spec fn service_decision_spec(msg: AsyncServiceMessage) -> ServiceAction {
    match msg {
        AsyncServiceMessage::Echo(n) => ServiceAction::ReplyEcho((n + 1) as u32),
        AsyncServiceMessage::StartAuth => ServiceAction::BeginAuthSession,
        AsyncServiceMessage::AuthChannel(_) => ServiceAction::Unsupported,
    }
}

/// Decide what the main service does with one request payload.
pub fn service_decision(msg: &AsyncServiceMessage) -> (action: ServiceAction)
    requires
        *msg matches AsyncServiceMessage::Echo(n) ==> n < u32::MAX,
    ensures
        action == service_decision_spec(*msg),
{
    match msg {
        AsyncServiceMessage::Echo(n) => ServiceAction::ReplyEcho(*n + 1),
        AsyncServiceMessage::StartAuth => ServiceAction::BeginAuthSession,
        AsyncServiceMessage::AuthChannel(_) => ServiceAction::Unsupported,
    }
}

/// A fresh bounded channel over which the main service receives its
/// envelopes.
pub fn new_async_service_channels() -> (endpoints: (
    mpsc::Sender<Message<AsyncServiceMessage>>,
    mpsc::Receiver<Message<AsyncServiceMessage>>,
)) {
    crate::channels::new_channel_pair::<AsyncServiceMessage>()
}

} // verus!
