//! The request/reply envelope and the bridge state machine.
//!
//! A bridge mediates between one polling consumer and one asynchronous
//! worker: `send` keeps at most one request outstanding (a newer `send`
//! cancels the reply slot of the previous one), and `pump_messages` checks,
//! without blocking, whether the outstanding reply has arrived and folds it
//! into the accumulated state with the reducer given at send time.

use vstd::prelude::*;
use vstd::string::StringExecFns;
use tokio::sync::mpsc;
use tokio::sync::oneshot;

verus! {

// The channel endpoints come from an outside crate; the library holds them
// as opaque values and speaks of them only through the trusted items below.

#[verifier::external_type_specification]
#[verifier::external_body]
#[verifier::reject_recursive_types(T)]
pub struct ExOneshotSender<T>(oneshot::Sender<T>);

#[verifier::external_type_specification]
#[verifier::external_body]
#[verifier::reject_recursive_types(T)]
pub struct ExOneshotReceiver<T>(oneshot::Receiver<T>);

// Declared only because the receiver's declaration brings its `Future`
// impl along, whose output names this error type; nothing here uses it.
#[verifier::external_type_specification]
#[verifier::external_body]
pub struct ExOneshotRecvError(oneshot::error::RecvError);

#[verifier::external_type_specification]
#[verifier::external_body]
#[verifier::reject_recursive_types(T)]
pub struct ExMpscSender<T>(mpsc::Sender<T>);

#[verifier::external_type_specification]
#[verifier::external_body]
#[verifier::reject_recursive_types(T)]
pub struct ExMpscReceiver<T>(mpsc::Receiver<T>);

/// Relies on tokio::sync::oneshot::channel: a fresh single-use reply slot,
/// returned as its write and read endpoints.
pub assume_specification<T>[ oneshot::channel::<T> ]() -> (slot: (
    oneshot::Sender<T>,
    oneshot::Receiver<T>,
));

/// Relies on tokio::sync::oneshot::Receiver::close: after the call, the
/// write endpoint of the slot can no longer deliver a value (a value written
/// before the call may still be read). Panics never; the outcome is only
/// observable through later polls of the slot.
pub assume_specification<T>[ oneshot::Receiver::<T>::close ](slot: &mut oneshot::Receiver<T>);

/// Relies on tokio::sync::mpsc::channel: within the admitted bounds it
/// returns the two endpoints of a bounded queue. It panics on a zero buffer,
/// and on a buffer above the greatest permit count its semaphore accepts:
/// the high three bits of a `usize` are reserved for flags, so the buffer
/// may not exceed `usize::MAX` shifted right by three — stated here
/// multiplicatively, eight times the buffer must fit in a `usize`.
pub assume_specification<T>[ mpsc::channel::<T> ](buffer: usize) -> (endpoints: (
    mpsc::Sender<T>,
    mpsc::Receiver<T>,
))
    requires
        1 <= buffer,
        8 * buffer <= usize::MAX,
;

/// One message to a worker: either a request that the worker answers exactly
/// once through the carried reply slot, or a fire-and-forget notification.
#[verifier::reject_recursive_types(TMsg)]
pub enum Message<TMsg> {
    Request { msg: TMsg, reply: oneshot::Sender<TMsg> },
    Notification { msg: TMsg },
}

/// What one non-blocking check of a reply slot found.
pub enum SlotPoll<TMsg> {
    /// The worker's reply.
    Ready(TMsg),
    /// No value yet; the slot may still be written.
    Pending,
    /// The slot can no longer yield a value.
    Closed,
}

/// What became of one attempt to enqueue a value for a worker.
pub enum EnqueueOutcome<T> {
    /// The value is queued.
    Accepted,
    /// The queue is at capacity; the value comes back.
    QueueFull(T),
    /// The worker's receive endpoint is gone; the value comes back.
    WorkerGone(T),
}

/// Relies on tokio::sync::oneshot::Receiver::try_recv: one non-blocking
/// check, yielding the value if the worker has written the slot, `Empty`
/// while the slot awaits a value, and `Closed` once no value can come.
/// Which of the three happens depends on the worker, so nothing is promised
/// of the outcome itself; on the empty path `try_recv` returns early and
/// leaves the receiver untouched, so a pending slot comes back unchanged.
#[verifier::external_body]
fn poll_reply_slot<TMsg>(slot: &mut oneshot::Receiver<TMsg>) -> (polled: SlotPoll<TMsg>)
    ensures
        polled is Pending ==> *final(slot) == *old(slot),
{
    match slot.try_recv() {
        Ok(value) => SlotPoll::Ready(value),
        Err(oneshot::error::TryRecvError::Empty) => SlotPoll::Pending,
        Err(oneshot::error::TryRecvError::Closed) => SlotPoll::Closed,
    }
}

/// Relies on tokio::sync::mpsc::Sender::try_send: the value is queued unless
/// the queue is full or the receive half is gone, and on failure the value
/// comes back inside the error. Which of the three happens depends on the
/// worker and on the queue's momentary fill, so nothing is promised of the
/// outcome.
#[verifier::external_body]
fn enqueue_for_worker<T>(tx: &mpsc::Sender<T>, value: T) -> (outcome: EnqueueOutcome<T>) {
    match tx.try_send(value) {
        Ok(()) => EnqueueOutcome::Accepted,
        Err(mpsc::error::TrySendError::Full(v)) => EnqueueOutcome::QueueFull(v),
        Err(mpsc::error::TrySendError::Closed(v)) => EnqueueOutcome::WorkerGone(v),
    }
}

/// A fresh bounded channel over which a worker receives its envelopes.
/// The queue holds at most 255 envelopes, so a consumer that keeps at most
/// one request outstanding never blocks on it.
pub fn new_channel_pair<TMsg>() -> (endpoints: (
    mpsc::Sender<Message<TMsg>>,
    mpsc::Receiver<Message<TMsg>>,
)) {
    mpsc::channel(255)
}

/// A single-use fold supplied with each request: the worker's reply payload
/// and the optional prior accumulated state give either the new state or the
/// text of a fold failure (a reply of a shape the reducer has no case for).
pub trait Reducer<TMsg, TState>: Sized {
    /// What the fold returns, as a function of the reply and the prior state.
    spec fn reduce_spec(self, msg: TMsg, prior: Option<TState>) -> Result<TState, Seq<char>>;

    /// Fold one reply payload into the prior state.
    fn reduce(self, msg: TMsg, prior: Option<TState>) -> (folded: Result<TState, String>)
        ensures
            match folded {
                Ok(s) => self.reduce_spec(msg, prior) == Ok::<TState, Seq<char>>(s),
                Err(e) => self.reduce_spec(msg, prior) matches Err(t) && e@ == t,
            },
    ;
}

/// Where a bridge stands with respect to its single outstanding request.
#[verifier::reject_recursive_types(TMsg)]
pub enum AsyncRequestBridgeState<TMsg, TState, R> {
    /// No request ever sent.
    Init,
    /// Exactly one request outstanding. `prev_state` is what the eventual
    /// reply is folded into (`None` on the very first request); `handler` is
    /// the single-use reducer supplied at send time.
    Awaiting { response: oneshot::Receiver<TMsg>, prev_state: Option<TState>, handler: R },
    /// Held only for the duration of one synchronous transition inside
    /// `send` or `pump_messages`; never left in place when either returns.
    Updating,
    /// The last fold result; the next `send` carries it forward.
    Complete(TState),
    /// A failure description; the next `send` discards it and starts over.
    Error(String),
}

/// The message of the `Error` state after `send` found the worker's queue full.
pub open spec fn queue_full_msg() -> Seq<char> {
    "failed to send request: worker queue is full"@
}

/// The message of the `Error` state after `send` found the worker gone.
pub open spec fn worker_gone_msg() -> Seq<char> {
    "failed to send request: worker channel is closed"@
}

/// The message of the `Error` state after the reply slot of an outstanding
/// request closed with no value ever written.
pub open spec fn reply_closed_msg() -> Seq<char> {
    "response channel closed unexpectedly"@
}

impl<TMsg, TState, R> AsyncRequestBridgeState<TMsg, TState, R> {
    /// The prior state that a new `send` carries out of this state into the
    /// next request: a `Complete` state is carried forward, an `Awaiting`
    /// request that is being superseded hands over what it would have folded
    /// into, and `Init`, `Updating` and `Error` carry nothing.
    pub open spec fn carried_prior(self) -> Option<TState> {
        match self {
            AsyncRequestBridgeState::Init => None,
            AsyncRequestBridgeState::Awaiting { prev_state, .. } => prev_state,
            AsyncRequestBridgeState::Updating => None,
            AsyncRequestBridgeState::Complete(s) => Some(s),
            AsyncRequestBridgeState::Error(_) => None,
        }
    }
}

/// Holds when `folded` is the state a bridge reaches by folding the reply
/// `msg` into `prior` with `handler`: `Complete` of the new state when the
/// reducer succeeds, `Error` of the reducer's message when it does not.
pub open spec fn is_folded_state<TMsg, TState, R: Reducer<TMsg, TState>>(
    folded: AsyncRequestBridgeState<TMsg, TState, R>,
    handler: R,
    msg: TMsg,
    prior: Option<TState>,
) -> bool {
    match handler.reduce_spec(msg, prior) {
        Ok(s) => folded == AsyncRequestBridgeState::<TMsg, TState, R>::Complete(s),
        Err(t) => folded matches AsyncRequestBridgeState::Error(m) && m@ == t,
    }
}

/// A successful fold is exactly what the next `send` carries forward: a
/// reply folded to `Complete(s)` makes the next request's prior state
/// `Some(s)`, and a failed fold (an `Error` state) makes it `None`.
pub proof fn lemma_folded_state_carries_forward<TMsg, TState, R: Reducer<TMsg, TState>>(
    folded: AsyncRequestBridgeState<TMsg, TState, R>,
    handler: R,
    msg: TMsg,
    prior: Option<TState>,
)
    requires
        is_folded_state(folded, handler, msg, prior),
    ensures
        handler.reduce_spec(msg, prior) matches Ok(s) ==> folded.carried_prior() == Some(s),
        handler.reduce_spec(msg, prior) is Err ==> folded.carried_prior() is None,
{
}

/// Fold one reply into the prior state: the deterministic tail of
/// `pump_messages`, usable on its own once a reply payload is in hand.
pub fn fold_reply<TMsg, TState, R: Reducer<TMsg, TState>>(
    handler: R,
    msg: TMsg,
    prior: Option<TState>,
) -> (folded: AsyncRequestBridgeState<TMsg, TState, R>)
    ensures
        is_folded_state(folded, handler, msg, prior),
{
    match handler.reduce(msg, prior) {
        Ok(s) => AsyncRequestBridgeState::Complete(s),
        Err(e) => AsyncRequestBridgeState::Error(e),
    }
}

/// Settle one poll of the outstanding reply slot: the deterministic tail of
/// `pump_messages`. A delivered reply is folded into the prior state; a
/// still-pending slot is put back into the same `Awaiting` state; a slot
/// closed with no value becomes the fixed `Error`. The flag says whether the
/// state changed.
pub fn settle_poll<TMsg, TState, R: Reducer<TMsg, TState>>(
    polled: SlotPoll<TMsg>,
    response: oneshot::Receiver<TMsg>,
    prev_state: Option<TState>,
    handler: R,
) -> (settled: (AsyncRequestBridgeState<TMsg, TState, R>, bool))
    ensures
        polled matches SlotPoll::Ready(reply) ==> is_folded_state(
            settled.0,
            handler,
            reply,
            prev_state,
        ) && settled.1,
        polled is Pending ==> settled == (
            AsyncRequestBridgeState::Awaiting { response, prev_state, handler },
            false,
        ),
        polled is Closed ==> (settled.0 matches AsyncRequestBridgeState::Error(m) && m@
            == reply_closed_msg()) && settled.1,
{
    match polled {
        SlotPoll::Ready(reply) => (fold_reply(handler, reply, prev_state), true),
        SlotPoll::Pending => (
            AsyncRequestBridgeState::Awaiting { response, prev_state, handler },
            false,
        ),
        SlotPoll::Closed => (
            AsyncRequestBridgeState::Error(
                String::from_str("response channel closed unexpectedly"),
            ),
            true,
        ),
    }
}

/// Settle one enqueue attempt: the deterministic tail of `send`. An accepted
/// envelope leaves the given state (the fresh `Awaiting` in `send`) in
/// place; a failed attempt replaces it with the `Error` whose message names
/// the failure.
pub fn settle_enqueue<TMsg, TState, R>(
    outcome: EnqueueOutcome<Message<TMsg>>,
    installed: AsyncRequestBridgeState<TMsg, TState, R>,
) -> (settled: AsyncRequestBridgeState<TMsg, TState, R>)
    ensures
        outcome is Accepted ==> settled == installed,
        outcome is QueueFull ==> (settled matches AsyncRequestBridgeState::Error(m) && m@
            == queue_full_msg()),
        outcome is WorkerGone ==> (settled matches AsyncRequestBridgeState::Error(m) && m@
            == worker_gone_msg()),
{
    match outcome {
        EnqueueOutcome::Accepted => installed,
        EnqueueOutcome::QueueFull(_) => AsyncRequestBridgeState::Error(
            String::from_str("failed to send request: worker queue is full"),
        ),
        EnqueueOutcome::WorkerGone(_) => AsyncRequestBridgeState::Error(
            String::from_str("failed to send request: worker channel is closed"),
        ),
    }
}

/// One polling consumer's endpoint to one asynchronous worker: a send
/// endpoint for request envelopes and the state of the single request that
/// may be outstanding on it.
#[verifier::reject_recursive_types(TMsg)]
pub struct AsyncRequestBridge<TMsg, TState, R> {
    pub tx: mpsc::Sender<Message<TMsg>>,
    pub state: AsyncRequestBridgeState<TMsg, TState, R>,
}

impl<TMsg, TState, R: Reducer<TMsg, TState>> AsyncRequestBridge<TMsg, TState, R> {
    /// The bridge `new` returns: the given endpoint, in the `Init` state.
    pub open spec fn spec_new(tx: mpsc::Sender<Message<TMsg>>) -> Self {
        AsyncRequestBridge { tx, state: AsyncRequestBridgeState::Init }
    }

    /// A bridge over the given endpoint, with no request ever sent.
    pub fn new(tx: mpsc::Sender<Message<TMsg>>) -> (bridge: Self)
        ensures
            bridge == Self::spec_new(tx),
            bridge.tx == tx,
            bridge.state is Init,
    {
        AsyncRequestBridge { tx, state: AsyncRequestBridgeState::Init }
    }

    /// Issue a request. The previous state decides what the eventual reply
    /// is folded into, per `carried_prior`; an `Awaiting` request still
    /// outstanding is cancelled first (its reply slot is closed, so a late
    /// reply is discarded; the worker is not told to stop). A fresh reply
    /// slot is installed and the envelope is enqueued without blocking; if
    /// the queue is full or the worker is gone, the state becomes `Error`
    /// with the matching message instead.
    pub fn send(&mut self, msg: TMsg, handler: R)
        ensures
            final(self).tx == old(self).tx,
            ({
                ||| (final(self).state matches AsyncRequestBridgeState::Awaiting {
                    response: _,
                    prev_state,
                    handler: h,
                } && prev_state == old(self).state.carried_prior() && h == handler)
                ||| (final(self).state matches AsyncRequestBridgeState::Error(m) && (m@
                    == queue_full_msg() || m@ == worker_gone_msg()))
            }),
    {
        let mut taken = AsyncRequestBridgeState::Updating;
        core::mem::swap(&mut self.state, &mut taken);
        let prev_state = match taken {
            AsyncRequestBridgeState::Init => None,
            AsyncRequestBridgeState::Awaiting { mut response, prev_state, handler: _ } => {
                // Cancel the superseded request: a late write to this slot
                // is discarded rather than delivered.
                response.close();
                prev_state
            },
            // `send` never observes `Updating`: the marker lives only inside
            // one call of `send` or `pump_messages`. Treated as `Init`.
            AsyncRequestBridgeState::Updating => None,
            AsyncRequestBridgeState::Complete(s) => Some(s),
            AsyncRequestBridgeState::Error(_) => None,
        };
        let (reply_tx, reply_rx) = oneshot::channel();
        let outcome = enqueue_for_worker(&self.tx, Message::Request { msg, reply: reply_tx });
        self.state = settle_enqueue(
            outcome,
            AsyncRequestBridgeState::Awaiting { response: reply_rx, prev_state, handler },
        );
    }

    /// One non-blocking check for the outstanding reply. Outside `Awaiting`
    /// the call changes nothing; while the slot is still empty it changes
    /// nothing either — in both cases the bridge is left exactly as it was.
    /// When the reply is in, it is folded into the carried prior state with
    /// the reducer given at send time, and the state becomes `Complete` (or
    /// `Error`, if the reducer has no case for the reply's shape); when the
    /// slot closed with no value ever written, the state becomes `Error`.
    /// The result says whether the state changed; how each poll outcome is
    /// settled is pinned, per outcome, by `settle_poll`.
    pub fn pump_messages(&mut self) -> (changed: bool)
        ensures
            final(self).tx == old(self).tx,
            !(old(self).state is Awaiting) ==> !changed,
            !changed ==> *final(self) == *old(self),
            changed ==> (old(self).state matches AsyncRequestBridgeState::Awaiting {
                response: _,
                prev_state,
                handler,
            } && {
                ||| (exists|reply: TMsg|
                    #[trigger] is_folded_state(final(self).state, handler, reply, prev_state))
                ||| (final(self).state matches AsyncRequestBridgeState::Error(m) && m@
                    == reply_closed_msg())
            }),
    {
        let mut taken = AsyncRequestBridgeState::Updating;
        core::mem::swap(&mut self.state, &mut taken);
        match taken {
            AsyncRequestBridgeState::Awaiting { mut response, prev_state, handler } => {
                let polled = poll_reply_slot(&mut response);
                let (settled, changed) = settle_poll(polled, response, prev_state, handler);
                self.state = settled;
                changed
            },
            other => {
                self.state = other;
                false
            },
        }
    }
}

} // verus!
