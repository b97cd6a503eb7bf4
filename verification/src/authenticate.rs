//! Messages of the authentication sub-worker, and the decision it makes for
//! each request it receives. The network side of the worker (registering a
//! client against an instance) is an external collaborator; the library only
//! decides, per message, which action the worker is to take.

use vstd::prelude::*;

verus! {

/// Messages exchanged with the authentication sub-worker.
pub enum AuthMessage {
    /// Request: begin a login against the named instance.
    Initialize(String),
    /// Reply: credentials of a completed login.
    MastodonData(String),
    /// Reply: the URL a user must visit to authorize the registration.
    AuthorizeUrl(String),
}

/// What the authentication worker is to do for one received request payload.
pub enum AuthAction {
    /// Register a client against the named instance and reply with the
    /// authorization URL.
    BeginRegistration(String),
    /// The payload is not a request the worker answers; do nothing.
    Ignore,
}

/// The decision of the authentication worker for one request payload.
pub open spec fn auth_decision_spec(msg: AuthMessage) -> AuthAction {
    match msg {
        AuthMessage::Initialize(instance) => AuthAction::BeginRegistration(instance),
        AuthMessage::MastodonData(_) => AuthAction::Ignore,
        AuthMessage::AuthorizeUrl(_) => AuthAction::Ignore,
    }
}

/// Decide what the authentication worker does with one request payload:
/// an `Initialize` starts a registration against the carried instance name;
/// every other payload is ignored.
pub fn auth_decision(msg: AuthMessage) -> (action: AuthAction)
    ensures
        action == auth_decision_spec(msg),
{
    match msg {
        AuthMessage::Initialize(instance) => AuthAction::BeginRegistration(instance),
        AuthMessage::MastodonData(_) => AuthAction::Ignore,
        AuthMessage::AuthorizeUrl(_) => AuthAction::Ignore,
    }
}

} // verus!
