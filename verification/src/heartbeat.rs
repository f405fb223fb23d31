use vstd::prelude::*;

use crate::message::ChannelError;
use crate::message::InboundPoll;
use crate::message::Message;
use crate::message::inbound_item;

verus! {

/// Produces a keepalive message payload on demand. Pure: the message is a
/// Ping carrying exactly `ping_payload`.
pub trait PingFactory: Sized {
    /// The payload every created keepalive message carries.
    spec fn ping_payload(&self) -> Seq<u8>;

    fn create(&self) -> (r: Message)
        ensures
            r matches Message::Ping(p) && p@ == self.ping_payload(),
    ;
}

/// A keepalive factory with a fixed byte payload.
pub struct DefaultPingFactory {
    pub payload: Vec<u8>,
}

impl DefaultPingFactory {
    /// A factory whose keepalive messages carry an empty payload.
    pub fn empty() -> (r: Self)
        ensures
            r.payload@ == Seq::<u8>::empty(),
    {
        DefaultPingFactory { payload: Vec::new() }
    }

    pub fn new(payload: Vec<u8>) -> (r: Self)
        ensures
            r == (DefaultPingFactory { payload }),
    {
        DefaultPingFactory { payload }
    }
}

fn copy_bytes(v: &Vec<u8>) -> (r: Vec<u8>)
    ensures
        r@ == v@,
{
    let mut r: Vec<u8> = Vec::new();
    let mut i: usize = 0;
    while i < v.len()
        invariant
            i <= v@.len(),
            r@ == v@.subrange(0, i as int),
        decreases v@.len() - i,
    {
        r.push(v[i]);
        i = i + 1;
    }
    proof {
        assert(r@ == v@.subrange(0, v@.len() as int));
        assert(v@.subrange(0, v@.len() as int) =~= v@);
    }
    r
}

impl PingFactory for DefaultPingFactory {
    open spec fn ping_payload(&self) -> Seq<u8> {
        self.payload@
    }

    fn create(&self) -> (r: Message) {
        Message::Ping(copy_bytes(&self.payload))
    }
}

/// The heartbeat decorator's internal cycle: waiting for the periodic timer,
/// scheduled to submit a keepalive once the outbound face is ready, or
/// flushing the submitted keepalive.
#[derive(Clone, Copy, Debug, PartialEq, Eq, Structural)]
pub enum HeartbeatState {
    Waiting,
    Scheduled,
    Flushing,
}

/// What the driving loop observed at the suspension point the current state
/// waits on: the timer tick (Waiting), outbound readiness (Scheduled), or
/// flush completion (Flushing).
#[derive(Clone, Debug, PartialEq, Eq)]
pub enum HeartbeatEvent {
    TickPending,
    TickElapsed,
    SendPending,
    SendReady,
    SendFailed(ChannelError),
    FlushPending,
    FlushDone,
    FlushFailed(ChannelError),
}

/// What the driving loop must do after one step: hand an inbound item (or
/// error, or end of stream) to the caller; submit the given keepalive
/// message to the outbound face and keep driving; run another step at once;
/// or suspend until something the current state waits on is ready.
#[derive(Clone, Debug, PartialEq, Eq)]
pub enum HeartbeatDirective {
    Deliver(Option<Result<Message, ChannelError>>),
    SubmitPing(Message),
    KeepGoing,
    Suspend,
}

/// Whether an event can be observed at the suspension point of a state.
pub open spec fn hb_event_fits(s: HeartbeatState, ev: HeartbeatEvent) -> bool {
    match ev {
        HeartbeatEvent::TickPending => s is Waiting,
        HeartbeatEvent::TickElapsed => s is Waiting,
        HeartbeatEvent::SendPending => s is Scheduled,
        HeartbeatEvent::SendReady => s is Scheduled,
        HeartbeatEvent::SendFailed(_) => s is Scheduled,
        HeartbeatEvent::FlushPending => s is Flushing,
        HeartbeatEvent::FlushDone => s is Flushing,
        HeartbeatEvent::FlushFailed(_) => s is Flushing,
    }
}

/// The state after consuming `ev` while no inbound item was ready.
pub open spec fn hb_next_state(s: HeartbeatState, ev: HeartbeatEvent) -> HeartbeatState {
    match ev {
        HeartbeatEvent::TickPending => s,
        HeartbeatEvent::TickElapsed => HeartbeatState::Scheduled,
        HeartbeatEvent::SendPending => s,
        HeartbeatEvent::SendReady => HeartbeatState::Flushing,
        HeartbeatEvent::SendFailed(_) => s,
        HeartbeatEvent::FlushPending => s,
        HeartbeatEvent::FlushDone => HeartbeatState::Waiting,
        HeartbeatEvent::FlushFailed(_) => s,
    }
}

/// Whether consuming `ev` in state `s` submits a keepalive message.
pub open spec fn hb_emits_ping(s: HeartbeatState, ev: HeartbeatEvent) -> bool {
    s is Scheduled && ev is SendReady
}

/// Wraps a duplex channel (held and polled by the driving loop); forwards
/// all traffic, and independently injects one keepalive message into the
/// outgoing side per timer interval. Driven exclusively by `step`; no
/// background execution of its own.
pub struct Heartbeat<F> {
    pub state: HeartbeatState,
    pub ping_factory: F,
}

impl<F: PingFactory> Heartbeat<F> {
    /// A fresh decorator, waiting for the first timer tick. The driving
    /// loop's timer must not fire immediately upon creation: the first tick
    /// comes one full interval after this call.
    pub fn new(ping_factory: F) -> (r: Self)
        ensures
            r == (Heartbeat { state: HeartbeatState::Waiting, ping_factory }),
    {
        Heartbeat { state: HeartbeatState::Waiting, ping_factory }
    }

    /// One iteration of the driving loop. `inbound` is the wrapped channel's
    /// inbound poll, which the loop performs first; `ev` is what the
    /// suspension point of the current state observed, consulted only when
    /// no inbound item is ready. A ready inbound item is always forwarded
    /// unchanged, before the internal cycle advances, whatever the state.
    pub fn step(&mut self, inbound: InboundPoll, ev: HeartbeatEvent) -> (d: HeartbeatDirective)
        requires
            !(inbound is Pending) || hb_event_fits(old(self).state, ev),
        ensures
            final(self).ping_factory == old(self).ping_factory,
            !(inbound is Pending) ==> final(self).state == old(self).state && d
                == HeartbeatDirective::Deliver(inbound_item(inbound)),
            inbound is Pending ==> final(self).state == hb_next_state(old(self).state, ev),
            inbound is Pending ==> (d is SubmitPing <==> hb_emits_ping(old(self).state, ev)),
            inbound is Pending ==> match ev {
                HeartbeatEvent::TickPending => d == HeartbeatDirective::Suspend,
                HeartbeatEvent::TickElapsed => d == HeartbeatDirective::KeepGoing,
                HeartbeatEvent::SendPending => d == HeartbeatDirective::Suspend,
                HeartbeatEvent::SendReady => d matches HeartbeatDirective::SubmitPing(m) && (
                m matches Message::Ping(p) && p@ == old(self).ping_factory.ping_payload()),
                HeartbeatEvent::SendFailed(e) => d == HeartbeatDirective::Deliver(
                    Some(Err::<Message, ChannelError>(e)),
                ),
                HeartbeatEvent::FlushPending => d == HeartbeatDirective::Suspend,
                HeartbeatEvent::FlushDone => d == HeartbeatDirective::KeepGoing,
                HeartbeatEvent::FlushFailed(e) => d == HeartbeatDirective::Deliver(
                    Some(Err::<Message, ChannelError>(e)),
                ),
            },
    {
        match inbound {
            InboundPoll::Item(m) => HeartbeatDirective::Deliver(Some(Ok(m))),
            InboundPoll::Failed(e) => HeartbeatDirective::Deliver(Some(Err(e))),
            InboundPoll::Closed => HeartbeatDirective::Deliver(None),
            InboundPoll::Pending => match ev {
                HeartbeatEvent::TickPending => HeartbeatDirective::Suspend,
                HeartbeatEvent::TickElapsed => {
                    self.state = HeartbeatState::Scheduled;
                    HeartbeatDirective::KeepGoing
                },
                HeartbeatEvent::SendPending => HeartbeatDirective::Suspend,
                HeartbeatEvent::SendReady => {
                    self.state = HeartbeatState::Flushing;
                    HeartbeatDirective::SubmitPing(self.ping_factory.create())
                },
                HeartbeatEvent::SendFailed(e) => HeartbeatDirective::Deliver(Some(Err(e))),
                HeartbeatEvent::FlushPending => HeartbeatDirective::Suspend,
                HeartbeatEvent::FlushDone => {
                    self.state = HeartbeatState::Waiting;
                    HeartbeatDirective::KeepGoing
                },
                HeartbeatEvent::FlushFailed(e) => HeartbeatDirective::Deliver(Some(Err(e))),
            },
        }
    }
}

/// The state after driving through a whole sequence of events (each step
/// with no inbound item ready).
pub open spec fn hb_run(s: HeartbeatState, evs: Seq<HeartbeatEvent>) -> HeartbeatState
    decreases evs.len(),
{
    if evs.len() == 0 {
        s
    } else {
        hb_run(hb_next_state(s, evs[0]), evs.drop_first())
    }
}

/// Every event of the sequence fits the state that consumes it.
pub open spec fn hb_valid_run(s: HeartbeatState, evs: Seq<HeartbeatEvent>) -> bool
    decreases evs.len(),
{
    evs.len() == 0 || (hb_event_fits(s, evs[0]) && hb_valid_run(
        hb_next_state(s, evs[0]),
        evs.drop_first(),
    ))
}

/// How many timer ticks the run consumed.
pub open spec fn hb_count_ticks(evs: Seq<HeartbeatEvent>) -> int
    decreases evs.len(),
{
    if evs.len() == 0 {
        0
    } else {
        (if evs[0] is TickElapsed {
            1int
        } else {
            0int
        }) + hb_count_ticks(evs.drop_first())
    }
}

/// How many keepalive messages the run submitted.
pub open spec fn hb_count_pings(s: HeartbeatState, evs: Seq<HeartbeatEvent>) -> int
    decreases evs.len(),
{
    if evs.len() == 0 {
        0
    } else {
        (if hb_emits_ping(s, evs[0]) {
            1int
        } else {
            0int
        }) + hb_count_pings(hb_next_state(s, evs[0]), evs.drop_first())
    }
}

/// How many keepalive flushes the run completed.
pub open spec fn hb_count_flushes(evs: Seq<HeartbeatEvent>) -> int
    decreases evs.len(),
{
    if evs.len() == 0 {
        0
    } else {
        (if evs[0] is FlushDone {
            1int
        } else {
            0int
        }) + hb_count_flushes(evs.drop_first())
    }
}

/// A tick already consumed but whose keepalive is not yet submitted.
pub open spec fn hb_ping_debt(s: HeartbeatState) -> int {
    match s {
        HeartbeatState::Waiting => 0,
        HeartbeatState::Scheduled => 1,
        HeartbeatState::Flushing => 0,
    }
}

/// A tick already consumed but whose keepalive is not yet flushed.
pub open spec fn hb_flush_debt(s: HeartbeatState) -> int {
    match s {
        HeartbeatState::Waiting => 0,
        HeartbeatState::Scheduled => 1,
        HeartbeatState::Flushing => 1,
    }
}

/// Exactly one keepalive message is submitted, and exactly one flush of it
/// completes, per consumed timer tick — up to the single cycle still in
/// progress at either end of the run. In particular, over any run that
/// starts and ends in `Waiting`, the number of keepalives submitted, the
/// number flushed, and the number of ticks are all equal; and this holds
/// whatever the inbound side did, since forwarding inbound traffic never
/// moves the cycle.
pub proof fn lemma_heartbeat_one_ping_per_tick(s: HeartbeatState, evs: Seq<HeartbeatEvent>)
    requires
        hb_valid_run(s, evs),
    ensures
        hb_count_pings(s, evs) == hb_count_ticks(evs) + hb_ping_debt(s) - hb_ping_debt(
            hb_run(s, evs),
        ),
        hb_count_flushes(evs) == hb_count_ticks(evs) + hb_flush_debt(s) - hb_flush_debt(
            hb_run(s, evs),
        ),
    decreases evs.len(),
{
    if evs.len() > 0 {
        lemma_heartbeat_one_ping_per_tick(hb_next_state(s, evs[0]), evs.drop_first());
    }
}

} // verus!
