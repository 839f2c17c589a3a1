//! The event monitor's per-iteration decisions, including the shutdown
//! scenario: a shutdown command observed before any block notification
//! publishes nothing.

use celo_relayer::chain::IbcEvent;
use celo_relayer::event_monitor::{
    monitor_run, monitor_should_stop, translate_notification, BlockNotification, CmdPoll,
    EventBatch, EventError, MonitorCmd,
};
use celo_relayer::height::Height;
use celo_relayer::identifier::ChainId;

fn chain_id() -> ChainId {
    ChainId::new(b"celo".to_vec(), 0)
}

#[test]
fn shutdown_before_any_block_publishes_nothing() {
    let polls = vec![CmdPoll::Command(MonitorCmd::Shutdown), CmdPoll::Empty];
    let notes = vec![BlockNotification::Head(5), BlockNotification::Head(6)];
    let published = monitor_run(0, &chain_id(), &polls, notes);
    assert!(published.is_empty());
}

#[test]
fn batches_flow_until_the_shutdown_command() {
    let polls = vec![CmdPoll::Empty, CmdPoll::Empty, CmdPoll::Command(MonitorCmd::Shutdown)];
    let notes =
        vec![BlockNotification::Head(5), BlockNotification::Head(6), BlockNotification::Head(7)];
    let published = monitor_run(0, &chain_id(), &polls, notes);
    assert_eq!(published.len(), 2);
    assert_eq!(published[0].as_ref().unwrap().height, Height::new(0, 5));
    assert_eq!(published[1].as_ref().unwrap().height, Height::new(0, 6));
}

#[test]
fn a_dropped_command_channel_stops_the_monitor() {
    let polls = vec![CmdPoll::Disconnected];
    let notes = vec![BlockNotification::Head(5)];
    let published = monitor_run(0, &chain_id(), &polls, notes);
    assert!(published.is_empty());
    assert!(!monitor_should_stop(&CmdPoll::Empty));
}

#[test]
fn a_new_head_becomes_a_one_event_batch() {
    let batch = translate_notification(3, &chain_id(), BlockNotification::Head(44)).unwrap();
    assert_eq!(batch.chain_id, chain_id());
    assert_eq!(batch.height, Height::new(3, 44));
    assert_eq!(batch.events, vec![IbcEvent::NewBlock(Height::new(3, 44))]);
}

#[test]
fn a_closed_subscription_is_a_collect_failure() {
    match translate_notification(0, &chain_id(), BlockNotification::Closed) {
        Err(EventError::CollectEventsFailed(_)) => {}
        other => panic!("expected a collect failure, got {:?}", other),
    }
}

#[test]
fn a_transport_failure_is_published_as_data() {
    match translate_notification(
        0,
        &chain_id(),
        BlockNotification::Failed(String::from("socket closed")),
    ) {
        Err(EventError::Rpc(reason)) => assert_eq!(reason, "socket closed"),
        other => panic!("expected an rpc error, got {:?}", other),
    }
}
