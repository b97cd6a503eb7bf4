//! The accumulated state a consumer folds service replies into, and the
//! reducers that do the folding: an echo reply adds its number to a running
//! counter, and an authentication-channel reply installs a bridge to the
//! freshly started authentication sub-worker.

use vstd::prelude::*;
use vstd::string::StringExecFns;
use crate::authenticate::AuthMessage;
use crate::channels::{AsyncRequestBridge, Reducer};
use crate::service::AsyncServiceMessage;

verus! {

/// What the consumer knows of an authentication session.
pub struct AuthUiState {
    pub signed_in: bool,
}

/// The state a consumer accumulates over the main service's replies.
pub struct AsyncAppState {
    /// A bridge to the authentication sub-worker, once one was started.
    pub auth_bridge: Option<AsyncRequestBridge<AuthMessage, AuthUiState, AuthReducer>>,
    /// The running sum of the echoed numbers.
    pub counter: u32,
}

/// The message of the failed fold when a reply has a shape the reducer has
/// no case for.
pub open spec fn unsupported_reply_msg() -> Seq<char> {
    "unsupported reply for this fold"@
}

/// The message of the failed fold when adding an echoed number to the
/// counter would overflow it.
pub open spec fn counter_overflow_msg() -> Seq<char> {
    "echo counter overflow"@
}

/// The folds the consumer hands to its bridge to the main service, one per
/// kind of request it issues.
pub enum AppReducer {
    /// For an `Echo` request: add the echoed number to the counter.
    EchoAdd,
    /// For a `StartAuth` request: install a bridge over the returned
    /// authentication channel, keeping the counter.
    InstallAuthChannel,
}

impl Reducer<AsyncServiceMessage, AsyncAppState> for AppReducer {
    /// `EchoAdd` adds the echoed number to the prior counter (starting the
    /// state at that number when there is no prior state) and fails on
    /// overflow; `InstallAuthChannel` installs a fresh bridge over the
    /// returned channel and keeps the prior counter (zero when there is no
    /// prior state). Every other reply shape fails the fold.
    open spec fn reduce_spec(self, msg: AsyncServiceMessage, prior: Option<AsyncAppState>) -> Result<
        AsyncAppState,
        Seq<char>,
    > {
        match (self, msg) {
            (AppReducer::EchoAdd, AsyncServiceMessage::Echo(n)) => match prior {
                Some(p) => if p.counter + n <= u32::MAX {
                    Ok(
                        AsyncAppState {
                            auth_bridge: p.auth_bridge,
                            counter: (p.counter + n) as u32,
                        },
                    )
                } else {
                    Err(counter_overflow_msg())
                },
                None => Ok(AsyncAppState { auth_bridge: None, counter: n }),
            },
            (AppReducer::InstallAuthChannel, AsyncServiceMessage::AuthChannel(ac)) => {
                let bridge = AsyncRequestBridge::<AuthMessage, AuthUiState, AuthReducer>::spec_new(
                    ac,
                );
                match prior {
                    Some(p) => Ok(
                        AsyncAppState { auth_bridge: Some(bridge), counter: p.counter },
                    ),
                    None => Ok(AsyncAppState { auth_bridge: Some(bridge), counter: 0 }),
                }
            },
            _ => Err(unsupported_reply_msg()),
        }
    }

    fn reduce(self, msg: AsyncServiceMessage, prior: Option<AsyncAppState>) -> (folded: Result<
        AsyncAppState,
        String,
    >) {
        match (self, msg) {
            (AppReducer::EchoAdd, AsyncServiceMessage::Echo(n)) => match prior {
                Some(p) => match p.counter.checked_add(n) {
                    Some(total) => Ok(
                        AsyncAppState { auth_bridge: p.auth_bridge, counter: total },
                    ),
                    None => Err(String::from_str("echo counter overflow")),
                },
                None => Ok(AsyncAppState { auth_bridge: None, counter: n }),
            },
            (AppReducer::InstallAuthChannel, AsyncServiceMessage::AuthChannel(ac)) => {
                let bridge = AsyncRequestBridge::<AuthMessage, AuthUiState, AuthReducer>::new(ac);
                match prior {
                    Some(p) => Ok(
                        AsyncAppState { auth_bridge: Some(bridge), counter: p.counter },
                    ),
                    None => Ok(AsyncAppState { auth_bridge: Some(bridge), counter: 0 }),
                }
            },
            _ => Err(String::from_str("unsupported reply for this fold")),
        }
    }
}

/// The fold the consumer hands to its authentication bridge.
pub struct AuthReducer;

impl Reducer<AuthMessage, AuthUiState> for AuthReducer {
    /// A `MastodonData` reply marks the session signed in, whatever the
    /// prior state; every other reply shape fails the fold.
    open spec fn reduce_spec(self, msg: AuthMessage, prior: Option<AuthUiState>) -> Result<
        AuthUiState,
        Seq<char>,
    > {
        match msg {
            AuthMessage::MastodonData(_) => Ok(AuthUiState { signed_in: true }),
            _ => Err(unsupported_reply_msg()),
        }
    }

    fn reduce(self, msg: AuthMessage, prior: Option<AuthUiState>) -> (folded: Result<
        AuthUiState,
        String,
    >) {
        match msg {
            AuthMessage::MastodonData(_) => Ok(AuthUiState { signed_in: true }),
            _ => Err(String::from_str("unsupported reply for this fold")),
        }
    }
}

} // verus!
