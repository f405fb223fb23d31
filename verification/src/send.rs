use vstd::prelude::*;

use crate::message::Message;

verus! {

/// What the driving loop observed from the sink: readiness to accept an
/// item, or completion of the flush.
#[derive(Clone, Copy, Debug, PartialEq, Eq, Structural)]
pub enum SinkEvent {
    ReadyPending,
    ReadyDone,
    FlushPending,
    FlushDone,
}

/// What the driving loop must do after one step: submit the given message
/// to the sink (surfacing any submission error to the caller itself), keep
/// suspended, or report the send as complete.
#[derive(Debug, PartialEq, Eq)]
pub enum SendDirective {
    Submit(Message),
    Suspend,
    Finished,
}

/// Whether an event can be observed in the machine's current phase: sink
/// readiness matters while the text is still to be submitted, the flush
/// afterwards.
pub open spec fn send_event_fits(item: Option<String>, ev: SinkEvent) -> bool {
    match ev {
        SinkEvent::ReadyPending => item is Some,
        SinkEvent::ReadyDone => item is Some,
        SinkEvent::FlushPending => item is None,
        SinkEvent::FlushDone => item is None,
    }
}

/// Sends one already-serialized JSON text as a text message through a
/// backpressured sink: wait for readiness, submit exactly the given text,
/// then complete once the flush has gone through.
pub struct SendJson {
    pub item: Option<String>,
}

impl SendJson {
    pub fn new(text: String) -> (r: Self)
        ensures
            r.item == Some(text),
    {
        SendJson { item: Some(text) }
    }

    /// One step of driving the send.
    pub fn step(&mut self, ev: SinkEvent) -> (d: SendDirective)
        requires
            send_event_fits(old(self).item, ev),
        ensures
            match ev {
                SinkEvent::ReadyPending => *final(self) == *old(self) && d
                    == SendDirective::Suspend,
                SinkEvent::ReadyDone => final(self).item is None && (old(self).item matches Some(t)
                    && d == SendDirective::Submit(Message::Text(t))),
                SinkEvent::FlushPending => *final(self) == *old(self) && d
                    == SendDirective::Suspend,
                SinkEvent::FlushDone => *final(self) == *old(self) && d == SendDirective::Finished,
            },
    {
        match ev {
            SinkEvent::ReadyPending => SendDirective::Suspend,
            SinkEvent::ReadyDone => {
                let text = self.item.take();
                match text {
                    Some(t) => SendDirective::Submit(Message::Text(t)),
                    None => {
                        proof {
                            assert(false);
                        }
                        vstd::pervasive::unreached()
                    },
                }
            },
            SinkEvent::FlushPending => SendDirective::Suspend,
            SinkEvent::FlushDone => SendDirective::Finished,
        }
    }
}

} // verus!
