use duplex_ext::heartbeat::DefaultPingFactory;
use duplex_ext::heartbeat::Heartbeat;
use duplex_ext::heartbeat::HeartbeatDirective;
use duplex_ext::heartbeat::HeartbeatEvent;
use duplex_ext::heartbeat::HeartbeatState;
use duplex_ext::message::ChannelError;
use duplex_ext::message::InboundPoll;
use duplex_ext::message::Message;
use duplex_ext::message::ok_or_already_closed;
use duplex_ext::message::ok_or_connection_closed;
use duplex_ext::refreshing::RefreshDirective;
use duplex_ext::refreshing::RefreshEvent;
use duplex_ext::refreshing::RefreshState;
use duplex_ext::refreshing::Refreshing;
use duplex_ext::send::SendDirective;
use duplex_ext::send::SendJson;
use duplex_ext::send::SinkEvent;
use duplex_ext::tracing::Direction;
use duplex_ext::tracing::Tracing;

#[test]
fn heartbeat_one_ping_per_interval() {
    let mut hb = Heartbeat::new(DefaultPingFactory::new(vec![1, 2]));
    let mut pings = 0;
    for _ in 0..3 {
        // The timer has not fired yet: nothing happens.
        assert_eq!(
            hb.step(InboundPoll::Pending, HeartbeatEvent::TickPending),
            HeartbeatDirective::Suspend
        );
        // One tick, one keepalive cycle.
        assert_eq!(
            hb.step(InboundPoll::Pending, HeartbeatEvent::TickElapsed),
            HeartbeatDirective::KeepGoing
        );
        assert_eq!(
            hb.step(InboundPoll::Pending, HeartbeatEvent::SendPending),
            HeartbeatDirective::Suspend
        );
        match hb.step(InboundPoll::Pending, HeartbeatEvent::SendReady) {
            HeartbeatDirective::SubmitPing(m) => {
                assert_eq!(m, Message::Ping(vec![1, 2]));
                pings += 1;
            }
            other => panic!("expected a keepalive submission, got {:?}", other),
        }
        assert_eq!(
            hb.step(InboundPoll::Pending, HeartbeatEvent::FlushPending),
            HeartbeatDirective::Suspend
        );
        assert_eq!(
            hb.step(InboundPoll::Pending, HeartbeatEvent::FlushDone),
            HeartbeatDirective::KeepGoing
        );
        assert_eq!(hb.state, HeartbeatState::Waiting);
    }
    assert_eq!(pings, 3);
}

#[test]
fn heartbeat_forwards_inbound_before_advancing() {
    let mut hb = Heartbeat::new(DefaultPingFactory::empty());
    // Move into Scheduled.
    hb.step(InboundPoll::Pending, HeartbeatEvent::TickElapsed);
    assert_eq!(hb.state, HeartbeatState::Scheduled);
    // An inbound message is forwarded unchanged; the cycle does not move.
    let msg = Message::Text("hello".to_string());
    let d = hb.step(InboundPoll::Item(msg.clone()), HeartbeatEvent::SendPending);
    assert_eq!(d, HeartbeatDirective::Deliver(Some(Ok(msg))));
    assert_eq!(hb.state, HeartbeatState::Scheduled);
    // The same in Flushing.
    hb.step(InboundPoll::Pending, HeartbeatEvent::SendReady);
    assert_eq!(hb.state, HeartbeatState::Flushing);
    let d = hb.step(
        InboundPoll::Item(Message::Close),
        HeartbeatEvent::FlushPending,
    );
    assert_eq!(d, HeartbeatDirective::Deliver(Some(Ok(Message::Close))));
    assert_eq!(hb.state, HeartbeatState::Flushing);
}

#[test]
fn heartbeat_surfaces_outbound_errors() {
    let mut hb = Heartbeat::new(DefaultPingFactory::empty());
    hb.step(InboundPoll::Pending, HeartbeatEvent::TickElapsed);
    let err = ChannelError::Other("boom".to_string());
    let d = hb.step(
        InboundPoll::Pending,
        HeartbeatEvent::SendFailed(err.clone()),
    );
    assert_eq!(d, HeartbeatDirective::Deliver(Some(Err(err))));
    assert_eq!(hb.state, HeartbeatState::Scheduled);
}

#[test]
fn refreshing_replaces_once_per_tick() {
    let mut rf: Refreshing<u32> = Refreshing::new(1, "conn".to_string());
    let mut swaps = 0;
    for n in 0..3u32 {
        assert_eq!(
            rf.step(InboundPoll::Pending, RefreshEvent::TickPending),
            RefreshDirective::Suspend
        );
        assert_eq!(
            rf.step(InboundPoll::Pending, RefreshEvent::TickElapsed),
            RefreshDirective::StartConnect
        );
        assert_eq!(
            rf.step(InboundPoll::Pending, RefreshEvent::ConnPending),
            RefreshDirective::Suspend
        );
        assert_eq!(
            rf.step(InboundPoll::Pending, RefreshEvent::ConnReady(n + 2)),
            RefreshDirective::StartOverlap
        );
        assert_eq!(
            rf.step(InboundPoll::Pending, RefreshEvent::OverlapElapsed),
            RefreshDirective::Swapped(n + 1)
        );
        assert_eq!(rf.active, n + 2);
        swaps += 1;
    }
    assert_eq!(swaps, 3);
}

#[test]
fn refreshing_failure_keeps_old_channel() {
    let mut rf: Refreshing<u32> = Refreshing::new(7, "conn".to_string());
    rf.step(InboundPoll::Pending, RefreshEvent::TickElapsed);
    let err = ChannelError::Other("refused".to_string());
    let d = rf.step(InboundPoll::Pending, RefreshEvent::ConnFailed(err.clone()));
    // The error is surfaced, the old channel stays active.
    assert_eq!(d, RefreshDirective::Deliver(Some(Err(err))));
    assert_eq!(rf.active, 7);
    assert_eq!(rf.state, RefreshState::Waiting);
    // The next tick starts another attempt.
    assert_eq!(
        rf.step(InboundPoll::Pending, RefreshEvent::TickElapsed),
        RefreshDirective::StartConnect
    );
}

#[test]
fn refreshing_overlap_scenario() {
    // Interval = 2 time units, overlap = 1: at t=0 the old channel (1) is
    // active; at t=2 the tick fires and the Connector resolves instantly;
    // at t=3 the overlap has elapsed and the swap occurs. A message queued
    // on the old channel at t=2.5 must still be delivered.
    let mut rf: Refreshing<u32> = Refreshing::new(1, "conn".to_string());
    // t=1: timer still pending.
    assert_eq!(
        rf.step(InboundPoll::Pending, RefreshEvent::TickPending),
        RefreshDirective::Suspend
    );
    // t=2: tick fires, the attempt resolves instantly.
    assert_eq!(
        rf.step(InboundPoll::Pending, RefreshEvent::TickElapsed),
        RefreshDirective::StartConnect
    );
    assert_eq!(
        rf.step(InboundPoll::Pending, RefreshEvent::ConnReady(2)),
        RefreshDirective::StartOverlap
    );
    // t=2.5: the old channel is still active and its message is delivered.
    let msg = Message::Text("queued".to_string());
    let d = rf.step(InboundPoll::Item(msg.clone()), RefreshEvent::OverlapPending);
    assert_eq!(d, RefreshDirective::Deliver(Some(Ok(msg))));
    assert_eq!(rf.active, 1);
    // t=3: the overlap elapses; the new channel takes over.
    assert_eq!(
        rf.step(InboundPoll::Pending, RefreshEvent::OverlapElapsed),
        RefreshDirective::Swapped(1)
    );
    assert_eq!(rf.active, 2);
    assert_eq!(rf.state, RefreshState::Waiting);
}

#[test]
fn tracing_passes_through() {
    let tr = Tracing::new((), "ws-1".to_string());
    let item = Some(Ok(Message::Binary(vec![9])));
    let (forwarded, record) = tr.observe_inbound(item.clone());
    assert_eq!(forwarded, item);
    assert_eq!(record.id, "ws-1".to_string());
    assert_eq!(record.direction, Direction::Inbound);

    let (forwarded, record) = tr.observe_outbound(Message::Close);
    assert_eq!(forwarded, Message::Close);
    assert_eq!(record.direction, Direction::Outbound);
}

#[test]
fn send_json_submits_then_flushes() {
    let mut send = SendJson::new("{\"a\":1}".to_string());
    assert_eq!(send.step(SinkEvent::ReadyPending), SendDirective::Suspend);
    assert_eq!(
        send.step(SinkEvent::ReadyDone),
        SendDirective::Submit(Message::Text("{\"a\":1}".to_string()))
    );
    assert_eq!(send.step(SinkEvent::FlushPending), SendDirective::Suspend);
    assert_eq!(send.step(SinkEvent::FlushDone), SendDirective::Finished);
}

#[test]
fn flatten_into_merges_error_levels() {
    #[derive(Debug, PartialEq)]
    struct Wide(u8);
    impl From<u8> for Wide {
        fn from(v: u8) -> Wide {
            Wide(v)
        }
    }
    impl From<u16> for Wide {
        fn from(v: u16) -> Wide {
            Wide(v as u8)
        }
    }
    let ok: Result<Result<i32, u8>, u16> = Ok(Ok(5));
    assert_eq!(duplex_ext::result::flatten_into::<_, _, _, Wide>(ok), Ok(5));
    let inner: Result<Result<i32, u8>, u16> = Ok(Err(3));
    assert_eq!(
        duplex_ext::result::flatten_into::<_, _, _, Wide>(inner),
        Err(Wide(3))
    );
    let outer: Result<Result<i32, u8>, u16> = Err(7);
    assert_eq!(
        duplex_ext::result::flatten_into::<_, _, _, Wide>(outer),
        Err(Wide(7))
    );
}

#[test]
fn closed_stream_errors() {
    assert_eq!(
        ok_or_already_closed::<Message>(None),
        Err(ChannelError::AlreadyClosed)
    );
    assert_eq!(
        ok_or_connection_closed::<Message>(None),
        Err(ChannelError::ConnectionClosed)
    );
    assert_eq!(
        ok_or_already_closed(Some(Ok(Message::Close))),
        Ok(Message::Close)
    );
    let err = ChannelError::Other("x".to_string());
    assert_eq!(
        ok_or_connection_closed::<Message>(Some(Err(err.clone()))),
        Err(err)
    );
}
