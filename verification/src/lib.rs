//! A bridging primitive between a synchronous, poll-driven consumer and an
//! asynchronous worker task: a request/reply envelope, a bridge state machine
//! that keeps at most one request outstanding and folds each reply into an
//! accumulated state, and the small decision functions of the workers that
//! the bridge talks to.

pub mod app;
pub mod authenticate;
pub mod channels;
pub mod service;

pub use authenticate::AuthMessage;
