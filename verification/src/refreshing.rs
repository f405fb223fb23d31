use vstd::prelude::*;

use crate::message::ChannelError;
use crate::message::InboundPoll;
use crate::message::Message;
use crate::message::inbound_item;

verus! {

/// The refresh cycle: waiting for the periodic timer; establishing a
/// replacement channel in the background; or stitching — the replacement is
/// ready but the old channel keeps serving during a short overlap window.
#[derive(Debug, PartialEq, Eq)]
pub enum RefreshState<C> {
    Waiting,
    Establishing,
    Stitching { fresh: C },
}

/// What the driving loop observed at the suspension point the current state
/// waits on: the timer tick (Waiting), the pending connection attempt
/// (Establishing), or the overlap window's timer (Stitching).
#[derive(Debug, PartialEq, Eq)]
pub enum RefreshEvent<C> {
    TickPending,
    TickElapsed,
    ConnPending,
    ConnReady(C),
    ConnFailed(ChannelError),
    OverlapPending,
    OverlapElapsed,
}

/// What the driving loop must do after one step: hand an inbound item to
/// the caller; start a connection attempt through the Connector and keep
/// driving; start the fixed overlap window and keep driving; drop the old
/// channel just swapped out (implicitly closing it); run another step; or
/// suspend.
#[derive(Debug, PartialEq, Eq)]
pub enum RefreshDirective<C> {
    Deliver(Option<Result<Message, ChannelError>>),
    StartConnect,
    StartOverlap,
    Swapped(C),
    KeepGoing,
    Suspend,
}

/// Whether an event can be observed at the suspension point of a state.
pub open spec fn rf_event_fits<C>(s: RefreshState<C>, ev: RefreshEvent<C>) -> bool {
    match ev {
        RefreshEvent::TickPending => s is Waiting,
        RefreshEvent::TickElapsed => s is Waiting,
        RefreshEvent::ConnPending => s is Establishing,
        RefreshEvent::ConnReady(_) => s is Establishing,
        RefreshEvent::ConnFailed(_) => s is Establishing,
        RefreshEvent::OverlapPending => s is Stitching,
        RefreshEvent::OverlapElapsed => s is Stitching,
    }
}

/// The state after consuming `ev` while no inbound item was ready.
pub open spec fn rf_next_state<C>(s: RefreshState<C>, ev: RefreshEvent<C>) -> RefreshState<C> {
    match ev {
        RefreshEvent::TickPending => s,
        RefreshEvent::TickElapsed => RefreshState::Establishing,
        RefreshEvent::ConnPending => s,
        RefreshEvent::ConnReady(c) => RefreshState::Stitching { fresh: c },
        RefreshEvent::ConnFailed(_) => RefreshState::Waiting,
        RefreshEvent::OverlapPending => s,
        RefreshEvent::OverlapElapsed => RefreshState::Waiting,
    }
}

/// Wraps a duplex channel (held in `active`, polled by the driving loop);
/// forwards all traffic, and periodically establishes a replacement channel
/// in the background, handing over to it after a short overlap window so
/// that no inbound message is lost in the transition. During Stitching it
/// owns both channels; only `active` is ever read from. Driven exclusively
/// by `step`; no background execution of its own.
pub struct Refreshing<C> {
    pub active: C,
    pub state: RefreshState<C>,
    pub id: String,
}

impl<C> Refreshing<C> {
    /// A fresh decorator around `active`, waiting for the first timer tick.
    /// The driving loop's timer must not fire immediately upon creation.
    pub fn new(active: C, id: String) -> (r: Self)
        ensures
            r == (Refreshing { active, state: RefreshState::<C>::Waiting, id }),
    {
        Refreshing { active, state: RefreshState::Waiting, id }
    }

    /// One iteration of the driving loop. `inbound` is the active channel's
    /// inbound poll, which the loop performs first; `ev` is what the
    /// suspension point of the current state observed, consulted only when
    /// no inbound item is ready. In every state a ready inbound item is
    /// forwarded unchanged before any refresh bookkeeping: refresh work
    /// never starves real traffic. A failed connection attempt surfaces its
    /// error to the caller but leaves the old channel active, and the next
    /// tick starts a new attempt; a completed overlap window installs the
    /// fresh channel and hands the old one back to be dropped.
    pub fn step(&mut self, inbound: InboundPoll, ev: RefreshEvent<C>) -> (d: RefreshDirective<C>)
        requires
            !(inbound is Pending) || rf_event_fits(old(self).state, ev),
        ensures
            final(self).id == old(self).id,
            !(inbound is Pending) ==> *final(self) == *old(self) && d
                == RefreshDirective::<C>::Deliver(inbound_item(inbound)),
            inbound is Pending ==> final(self).state == rf_next_state(old(self).state, ev),
            inbound is Pending && !(ev is OverlapElapsed) ==> final(self).active == old(
                self,
            ).active,
            inbound is Pending ==> match ev {
                RefreshEvent::TickPending => d == RefreshDirective::<C>::Suspend,
                RefreshEvent::TickElapsed => d == RefreshDirective::<C>::StartConnect,
                RefreshEvent::ConnPending => d == RefreshDirective::<C>::Suspend,
                RefreshEvent::ConnReady(_) => d == RefreshDirective::<C>::StartOverlap,
                RefreshEvent::ConnFailed(e) => d == RefreshDirective::<C>::Deliver(
                    Some(Err::<Message, ChannelError>(e)),
                ),
                RefreshEvent::OverlapPending => d == RefreshDirective::<C>::Suspend,
                RefreshEvent::OverlapElapsed => (old(self).state matches RefreshState::Stitching {
                    fresh,
                } && final(self).active == fresh && d == RefreshDirective::Swapped(
                    old(self).active,
                )),
            },
    {
        match inbound {
            InboundPoll::Item(m) => RefreshDirective::Deliver(Some(Ok(m))),
            InboundPoll::Failed(e) => RefreshDirective::Deliver(Some(Err(e))),
            InboundPoll::Closed => RefreshDirective::Deliver(None),
            InboundPoll::Pending => match ev {
                RefreshEvent::TickPending => RefreshDirective::Suspend,
                RefreshEvent::TickElapsed => {
                    self.state = RefreshState::Establishing;
                    RefreshDirective::StartConnect
                },
                RefreshEvent::ConnPending => RefreshDirective::Suspend,
                RefreshEvent::ConnReady(c) => {
                    self.state = RefreshState::Stitching { fresh: c };
                    RefreshDirective::StartOverlap
                },
                RefreshEvent::ConnFailed(e) => {
                    self.state = RefreshState::Waiting;
                    RefreshDirective::Deliver(Some(Err(e)))
                },
                RefreshEvent::OverlapPending => RefreshDirective::Suspend,
                RefreshEvent::OverlapElapsed => {
                    let mut st = RefreshState::Waiting;
                    core::mem::swap(&mut self.state, &mut st);
                    if let RefreshState::Stitching { fresh } = st {
                        let mut swapped_out = fresh;
                        core::mem::swap(&mut self.active, &mut swapped_out);
                        RefreshDirective::Swapped(swapped_out)
                    } else {
                        proof {
                            assert(false);
                        }
                        vstd::pervasive::unreached()
                    }
                },
            },
        }
    }
}

/// The state after driving through a whole sequence of events (each step
/// with no inbound item ready).
pub open spec fn rf_run<C>(s: RefreshState<C>, evs: Seq<RefreshEvent<C>>) -> RefreshState<C>
    decreases evs.len(),
{
    if evs.len() == 0 {
        s
    } else {
        rf_run(rf_next_state(s, evs[0]), evs.drop_first())
    }
}

/// Every event of the sequence fits the state that consumes it.
pub open spec fn rf_valid_run<C>(s: RefreshState<C>, evs: Seq<RefreshEvent<C>>) -> bool
    decreases evs.len(),
{
    evs.len() == 0 || (rf_event_fits(s, evs[0]) && rf_valid_run(
        rf_next_state(s, evs[0]),
        evs.drop_first(),
    ))
}

/// How many timer ticks the run consumed (each starts one attempt).
pub open spec fn rf_count_ticks<C>(evs: Seq<RefreshEvent<C>>) -> int
    decreases evs.len(),
{
    if evs.len() == 0 {
        0
    } else {
        (if evs[0] is TickElapsed {
            1int
        } else {
            0int
        }) + rf_count_ticks(evs.drop_first())
    }
}

/// How many connection attempts of the run failed.
pub open spec fn rf_count_failures<C>(evs: Seq<RefreshEvent<C>>) -> int
    decreases evs.len(),
{
    if evs.len() == 0 {
        0
    } else {
        (if evs[0] is ConnFailed {
            1int
        } else {
            0int
        }) + rf_count_failures(evs.drop_first())
    }
}

/// How many times the run replaced the active channel.
pub open spec fn rf_count_swaps<C>(evs: Seq<RefreshEvent<C>>) -> int
    decreases evs.len(),
{
    if evs.len() == 0 {
        0
    } else {
        (if evs[0] is OverlapElapsed {
            1int
        } else {
            0int
        }) + rf_count_swaps(evs.drop_first())
    }
}

/// A tick already consumed whose refresh cycle has not yet finished.
pub open spec fn rf_swap_debt<C>(s: RefreshState<C>) -> int {
    match s {
        RefreshState::Waiting => 0,
        RefreshState::Establishing => 1,
        RefreshState::Stitching { .. } => 1,
    }
}

/// A failed connection attempt ends its refresh cycle only: the machine is
/// back in Waiting, so the following timer tick fits and starts a new
/// attempt; the step that consumed the failure left the active channel in
/// place (an ensures of `Refreshing::step`).
pub proof fn lemma_refresh_retries_after_failure<C>(e: ChannelError)
    ensures
        rf_next_state(
            RefreshState::<C>::Establishing,
            RefreshEvent::<C>::ConnFailed(e),
        ) is Waiting,
        rf_event_fits(RefreshState::<C>::Waiting, RefreshEvent::<C>::TickElapsed),
        rf_next_state(RefreshState::<C>::Waiting, RefreshEvent::<C>::TickElapsed) is Establishing,
{
}

/// Each consumed timer tick starts exactly one connection attempt, and each
/// attempt ends in exactly one of: a swap of the active channel, or a
/// surfaced failure that leaves the old channel serving. So over any run the
/// number of replacements equals ticks minus failures, up to the single
/// cycle still in progress at either end; with a Connector whose attempts
/// always succeed, after N ticks the active channel has been replaced
/// exactly N times once the last overlap window has elapsed.
pub proof fn lemma_one_swap_per_tick<C>(s: RefreshState<C>, evs: Seq<RefreshEvent<C>>)
    requires
        rf_valid_run(s, evs),
    ensures
        rf_count_swaps(evs) == rf_count_ticks(evs) - rf_count_failures(evs) + rf_swap_debt(s)
            - rf_swap_debt(rf_run(s, evs)),
    decreases evs.len(),
{
    if evs.len() > 0 {
        lemma_one_swap_per_tick(rf_next_state(s, evs[0]), evs.drop_first());
    }
}

} // verus!
