use hedgehog::app::{AppReducer, AsyncAppState};
use hedgehog::channels::{new_channel_pair, AsyncRequestBridge, AsyncRequestBridgeState, Message};
use hedgehog::service::AsyncServiceMessage;
use tokio::sync::mpsc;
use tokio::sync::oneshot;

type Bridge = AsyncRequestBridge<AsyncServiceMessage, AsyncAppState, AppReducer>;

/// Pull the next envelope off the worker's queue and return the request
/// payload with its reply slot.
fn next_request(
    rx: &mut mpsc::Receiver<Message<AsyncServiceMessage>>,
) -> (AsyncServiceMessage, oneshot::Sender<AsyncServiceMessage>) {
    match rx.try_recv() {
        Ok(Message::Request { msg, reply }) => (msg, reply),
        Ok(Message::Notification { .. }) => panic!("expected a request envelope"),
        Err(e) => panic!("no envelope was queued: {:?}", e),
    }
}

fn counter_of(state: &AsyncRequestBridgeState<AsyncServiceMessage, AsyncAppState, AppReducer>) -> u32 {
    match state {
        AsyncRequestBridgeState::Complete(s) => s.counter,
        _ => panic!("expected a Complete state"),
    }
}

#[test]
fn scenario_a_first_echo() {
    let (tx, mut rx) = new_channel_pair();
    let mut bridge: Bridge = AsyncRequestBridge::new(tx);
    assert!(matches!(bridge.state, AsyncRequestBridgeState::Init));

    bridge.send(AsyncServiceMessage::Echo(1), AppReducer::EchoAdd);
    match &bridge.state {
        AsyncRequestBridgeState::Awaiting { prev_state, .. } => assert!(prev_state.is_none()),
        _ => panic!("expected Awaiting after send"),
    }

    let (msg, reply) = next_request(&mut rx);
    assert!(matches!(msg, AsyncServiceMessage::Echo(1)));
    reply.send(AsyncServiceMessage::Echo(2)).ok().expect("slot is open");

    assert!(bridge.pump_messages());
    assert_eq!(counter_of(&bridge.state), 2);
}

#[test]
fn scenario_b_complete_state_is_carried_and_folded() {
    let (tx, mut rx) = new_channel_pair();
    let mut bridge: Bridge = AsyncRequestBridge::new(tx);
    bridge.send(AsyncServiceMessage::Echo(1), AppReducer::EchoAdd);
    let (_, reply) = next_request(&mut rx);
    reply.send(AsyncServiceMessage::Echo(2)).ok().expect("slot is open");
    assert!(bridge.pump_messages());
    assert_eq!(counter_of(&bridge.state), 2);

    bridge.send(AsyncServiceMessage::Echo(3), AppReducer::EchoAdd);
    match &bridge.state {
        AsyncRequestBridgeState::Awaiting { prev_state, .. } => match prev_state {
            Some(p) => assert_eq!(p.counter, 2),
            None => panic!("the Complete state was not carried forward"),
        },
        _ => panic!("expected Awaiting after send"),
    }

    let (_, reply) = next_request(&mut rx);
    reply.send(AsyncServiceMessage::Echo(4)).ok().expect("slot is open");
    assert!(bridge.pump_messages());
    assert_eq!(counter_of(&bridge.state), 6);
}

#[test]
fn scenario_c_newer_send_supersedes_and_discards_the_stale_reply() {
    let (tx, mut rx) = new_channel_pair();
    let mut bridge: Bridge = AsyncRequestBridge::new(tx);

    bridge.send(AsyncServiceMessage::Echo(1), AppReducer::EchoAdd);
    bridge.send(AsyncServiceMessage::Echo(10), AppReducer::EchoAdd);

    let (_, first_reply) = next_request(&mut rx);
    let (_, second_reply) = next_request(&mut rx);

    // The first request's slot was closed (and dropped) by the second send:
    // the worker's late write fails without crashing anything.
    assert!(first_reply.send(AsyncServiceMessage::Echo(100)).is_err());

    // Nothing was delivered: the stale value never reaches the reducer.
    assert!(!bridge.pump_messages());
    assert!(matches!(bridge.state, AsyncRequestBridgeState::Awaiting { .. }));

    // Only the second reply produces a Complete transition.
    second_reply.send(AsyncServiceMessage::Echo(11)).ok().expect("slot is open");
    assert!(bridge.pump_messages());
    assert_eq!(counter_of(&bridge.state), 11);
}

#[test]
fn scenario_d_send_to_a_gone_worker_errors_immediately() {
    let (tx, rx) = new_channel_pair::<AsyncServiceMessage>();
    drop(rx);
    let mut bridge: Bridge = AsyncRequestBridge::new(tx);
    bridge.send(AsyncServiceMessage::Echo(1), AppReducer::EchoAdd);
    match &bridge.state {
        AsyncRequestBridgeState::Error(m) => {
            assert_eq!(m, "failed to send request: worker channel is closed")
        }
        _ => panic!("expected Error after sending to a gone worker"),
    }
}

#[test]
fn pump_is_idempotent_while_the_slot_is_empty() {
    let (tx, mut rx) = new_channel_pair();
    let mut bridge: Bridge = AsyncRequestBridge::new(tx);
    bridge.send(AsyncServiceMessage::Echo(1), AppReducer::EchoAdd);

    for _ in 0..3 {
        assert!(!bridge.pump_messages());
        match &bridge.state {
            AsyncRequestBridgeState::Awaiting { prev_state, .. } => {
                assert!(prev_state.is_none())
            }
            _ => panic!("pump on an empty slot must leave the state Awaiting"),
        }
    }

    // The request is still answerable after all the empty polls.
    let (_, reply) = next_request(&mut rx);
    reply.send(AsyncServiceMessage::Echo(2)).ok().expect("slot is open");
    assert!(bridge.pump_messages());
    assert_eq!(counter_of(&bridge.state), 2);
}

#[test]
fn pump_changes_nothing_outside_awaiting() {
    let (tx, mut rx) = new_channel_pair();
    let mut bridge: Bridge = AsyncRequestBridge::new(tx);
    assert!(!bridge.pump_messages());
    assert!(matches!(bridge.state, AsyncRequestBridgeState::Init));

    bridge.send(AsyncServiceMessage::Echo(1), AppReducer::EchoAdd);
    let (_, reply) = next_request(&mut rx);
    reply.send(AsyncServiceMessage::Echo(2)).ok().expect("slot is open");
    assert!(bridge.pump_messages());

    // A second pump after the Complete transition is a no-op.
    assert!(!bridge.pump_messages());
    assert_eq!(counter_of(&bridge.state), 2);
}

#[test]
fn closed_reply_slot_becomes_an_error_on_pump() {
    let (tx, mut rx) = new_channel_pair();
    let mut bridge: Bridge = AsyncRequestBridge::new(tx);
    bridge.send(AsyncServiceMessage::Echo(1), AppReducer::EchoAdd);

    // The worker dies without ever writing the slot.
    let (_, reply) = next_request(&mut rx);
    drop(reply);

    assert!(bridge.pump_messages());
    match &bridge.state {
        AsyncRequestBridgeState::Error(m) => {
            assert_eq!(m, "response channel closed unexpectedly")
        }
        _ => panic!("expected Error after the slot closed with no value"),
    }
}

#[test]
fn send_recovers_from_an_error_state_with_no_carried_prior() {
    let (tx, mut rx) = new_channel_pair();
    let mut bridge: Bridge = AsyncRequestBridge::new(tx);

    // Reach Complete(5), then fail a fold with a reply shape the reducer
    // has no case for.
    bridge.send(AsyncServiceMessage::Echo(5), AppReducer::EchoAdd);
    let (_, reply) = next_request(&mut rx);
    reply.send(AsyncServiceMessage::Echo(5)).ok().expect("slot is open");
    assert!(bridge.pump_messages());
    assert_eq!(counter_of(&bridge.state), 5);

    bridge.send(AsyncServiceMessage::Echo(1), AppReducer::EchoAdd);
    let (_, reply) = next_request(&mut rx);
    reply.send(AsyncServiceMessage::StartAuth).ok().expect("slot is open");
    assert!(bridge.pump_messages());
    match &bridge.state {
        AsyncRequestBridgeState::Error(m) => assert_eq!(m, "unsupported reply for this fold"),
        _ => panic!("expected Error after a fold of an unsupported reply"),
    }

    // A send out of Error starts over: nothing is carried forward.
    bridge.send(AsyncServiceMessage::Echo(7), AppReducer::EchoAdd);
    match &bridge.state {
        AsyncRequestBridgeState::Awaiting { prev_state, .. } => assert!(prev_state.is_none()),
        _ => panic!("expected Awaiting after send out of Error"),
    }
    let (_, reply) = next_request(&mut rx);
    reply.send(AsyncServiceMessage::Echo(8)).ok().expect("slot is open");
    assert!(bridge.pump_messages());
    assert_eq!(counter_of(&bridge.state), 8);
}

#[test]
fn send_onto_a_full_queue_errors() {
    let (tx, rx) = new_channel_pair::<AsyncServiceMessage>();
    let mut bridge: Bridge = AsyncRequestBridge::new(tx);

    // The queue holds 255 envelopes; nobody consumes them here.
    for _ in 0..255 {
        bridge.send(AsyncServiceMessage::Echo(1), AppReducer::EchoAdd);
        assert!(matches!(bridge.state, AsyncRequestBridgeState::Awaiting { .. }));
    }
    bridge.send(AsyncServiceMessage::Echo(1), AppReducer::EchoAdd);
    match &bridge.state {
        AsyncRequestBridgeState::Error(m) => {
            assert_eq!(m, "failed to send request: worker queue is full")
        }
        _ => panic!("expected Error after enqueueing onto a full queue"),
    }
    drop(rx);
}

#[test]
fn settle_poll_folds_a_ready_reply() {
    let (_tx, rx) = tokio::sync::oneshot::channel::<AsyncServiceMessage>();
    let (settled, changed) = hedgehog::channels::settle_poll(
        hedgehog::channels::SlotPoll::Ready(AsyncServiceMessage::Echo(3)),
        rx,
        None,
        AppReducer::EchoAdd,
    );
    assert!(changed);
    assert_eq!(counter_of(&settled), 3);
}

#[test]
fn settle_poll_keeps_a_pending_request() {
    let (_tx, rx) = tokio::sync::oneshot::channel::<AsyncServiceMessage>();
    let prior = AsyncAppState { auth_bridge: None, counter: 4 };
    let (settled, changed) = hedgehog::channels::settle_poll(
        hedgehog::channels::SlotPoll::Pending,
        rx,
        Some(prior),
        AppReducer::EchoAdd,
    );
    assert!(!changed);
    match settled {
        AsyncRequestBridgeState::Awaiting { prev_state, .. } => match prev_state {
            Some(p) => assert_eq!(p.counter, 4),
            None => panic!("the prior state was lost"),
        },
        _ => panic!("a pending poll must keep the request Awaiting"),
    }
}

#[test]
fn settle_poll_errors_on_a_closed_slot() {
    let (_tx, rx) = tokio::sync::oneshot::channel::<AsyncServiceMessage>();
    let (settled, changed) = hedgehog::channels::settle_poll(
        hedgehog::channels::SlotPoll::Closed,
        rx,
        None,
        AppReducer::EchoAdd,
    );
    assert!(changed);
    match settled {
        AsyncRequestBridgeState::Error(m) => {
            assert_eq!(m, "response channel closed unexpectedly")
        }
        _ => panic!("a closed slot must settle as Error"),
    }
}

#[test]
fn settle_enqueue_pins_each_outcome() {
    type State = AsyncRequestBridgeState<AsyncServiceMessage, AsyncAppState, AppReducer>;

    let kept = hedgehog::channels::settle_enqueue(
        hedgehog::channels::EnqueueOutcome::Accepted,
        State::Init,
    );
    assert!(matches!(kept, AsyncRequestBridgeState::Init));

    let envelope = Message::Notification { msg: AsyncServiceMessage::Echo(0) };
    let full = hedgehog::channels::settle_enqueue(
        hedgehog::channels::EnqueueOutcome::QueueFull(envelope),
        State::Init,
    );
    match full {
        AsyncRequestBridgeState::Error(m) => {
            assert_eq!(m, "failed to send request: worker queue is full")
        }
        _ => panic!("a full queue must settle as Error"),
    }

    let envelope = Message::Notification { msg: AsyncServiceMessage::Echo(0) };
    let gone = hedgehog::channels::settle_enqueue(
        hedgehog::channels::EnqueueOutcome::WorkerGone(envelope),
        State::Init,
    );
    match gone {
        AsyncRequestBridgeState::Error(m) => {
            assert_eq!(m, "failed to send request: worker channel is closed")
        }
        _ => panic!("a gone worker must settle as Error"),
    }
}
