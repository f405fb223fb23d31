use vstd::prelude::*;

verus! {

/// A duplex-channel message: tagged payload variants, immutable once
/// constructed.
#[derive(Clone, Debug, PartialEq, Eq)]
pub enum Message {
    Text(String),
    Binary(Vec<u8>),
    Ping(Vec<u8>),
    Pong(Vec<u8>),
    Close,
}

/// A transport or protocol failure on a channel: fatal to the current
/// channel instance and surfaced to the caller unchanged.
#[derive(Clone, Debug, PartialEq, Eq)]
pub enum ChannelError {
    /// The channel was used after it had already been closed.
    AlreadyClosed,
    /// The peer closed the connection.
    ConnectionClosed,
    /// Any other transport failure, carried as a description.
    Other(String),
}

/// A payload serialization or deserialization failure: surfaced inline for
/// the single affected message; it does not tear down the channel.
#[derive(Clone, Debug, PartialEq, Eq)]
pub struct EncodingError {
    pub message: String,
}

/// The result of polling the inbound face of a channel: an item is ready,
/// the channel failed, the peer closed, or nothing is ready yet.
#[derive(Clone, Debug, PartialEq, Eq)]
pub enum InboundPoll {
    Item(Message),
    Failed(ChannelError),
    Closed,
    Pending,
}

/// What an inbound poll hands to the caller once it is ready: `None` for a
/// graceful end of the inbound sequence.
pub open spec fn inbound_item(p: InboundPoll) -> Option<Result<Message, ChannelError>> {
    match p {
        InboundPoll::Item(m) => Some(Ok(m)),
        InboundPoll::Failed(e) => Some(Err(e)),
        InboundPoll::Closed => None,
        InboundPoll::Pending => None,
    }
}

/// An inbound sequence that ended gracefully stands for a channel error:
/// this undoes the conversion, yielding `AlreadyClosed`.
pub fn ok_or_already_closed<T>(r: Option<Result<T, ChannelError>>) -> (res: Result<
    T,
    ChannelError,
>)
    ensures
        r matches Some(x) ==> res == x,
        r is None ==> res == Err::<T, ChannelError>(ChannelError::AlreadyClosed),
{
    match r {
        Some(x) => x,
        None => Err(ChannelError::AlreadyClosed),
    }
}

/// As `ok_or_already_closed`, but a graceful end stands for
/// `ConnectionClosed`.
pub fn ok_or_connection_closed<T>(r: Option<Result<T, ChannelError>>) -> (res: Result<
    T,
    ChannelError,
>)
    ensures
        r matches Some(x) ==> res == x,
        r is None ==> res == Err::<T, ChannelError>(ChannelError::ConnectionClosed),
{
    match r {
        Some(x) => x,
        None => Err(ChannelError::ConnectionClosed),
    }
}

} // verus!
