use vstd::prelude::*;

use crate::message::ChannelError;
use crate::message::Message;

verus! {

/// Which way a message was travelling when it was observed.
#[derive(Clone, Copy, Debug, PartialEq, Eq, Structural)]
pub enum Direction {
    Inbound,
    Outbound,
}

/// What should be logged for one observed message: the channel identifier
/// and the direction. The message itself travels alongside, unchanged.
#[derive(Clone, Debug, PartialEq, Eq)]
pub struct TraceRecord {
    pub id: String,
    pub direction: Direction,
}

/// Wraps a duplex channel (held and polled by the driving loop); a pure
/// pass-through that yields a log record for every message observed in
/// either direction. No internal state beyond the identifier, and no
/// failure modes of its own.
pub struct Tracing<S> {
    pub inner: S,
    pub id: String,
}

impl<S> Tracing<S> {
    pub fn new(inner: S, id: String) -> (r: Self)
        ensures
            r == (Tracing { inner, id }),
    {
        Tracing { inner, id }
    }

    /// Pass one inbound poll result through unchanged, together with the
    /// record to log for it.
    pub fn observe_inbound(&self, item: Option<Result<Message, ChannelError>>) -> (r: (
        Option<Result<Message, ChannelError>>,
        TraceRecord,
    ))
        ensures
            r.0 == item,
            r.1.id == self.id,
            r.1.direction is Inbound,
    {
        let record = TraceRecord { id: self.id.clone(), direction: Direction::Inbound };
        (item, record)
    }

    /// Pass one outgoing message through unchanged, together with the
    /// record to log for it.
    pub fn observe_outbound(&self, item: Message) -> (r: (Message, TraceRecord))
        ensures
            r.0 == item,
            r.1.id == self.id,
            r.1.direction is Outbound,
    {
        let record = TraceRecord { id: self.id.clone(), direction: Direction::Outbound };
        (item, record)
    }
}

} // verus!
