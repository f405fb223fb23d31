use vstd::prelude::*;

use crate::json::json_parse_ok;
use crate::json::parse_json;
use crate::message::ChannelError;
use crate::message::EncodingError;
use crate::message::Message;

verus! {

/// One step of resolving "the next item of a given kind": either the future
/// finishes with this result, or the ready message is of another kind and
/// the stream must be polled again.
#[derive(Debug, PartialEq, Eq)]
pub enum NextStep<T> {
    Finished(Option<Result<T, ChannelError>>),
    Skip,
}

/// Resolves to the next binary payload of a message stream: non-binary
/// messages are skipped, errors and the end of the stream pass through.
pub struct Binary;

impl Binary {
    pub fn new() -> (r: Self) {
        Binary
    }

    /// Decide on one ready stream item.
    pub fn step(&self, item: Option<Result<Message, ChannelError>>) -> (r: NextStep<Vec<u8>>)
        ensures
            item is None ==> r == NextStep::Finished(None::<Result<Vec<u8>, ChannelError>>),
            item matches Some(Err(e)) ==> r == NextStep::Finished(
                Some(Err::<Vec<u8>, ChannelError>(e)),
            ),
            item matches Some(Ok(m)) ==> match m {
                Message::Binary(b) => r == NextStep::Finished(
                    Some(Ok::<Vec<u8>, ChannelError>(b)),
                ),
                _ => r == NextStep::<Vec<u8>>::Skip,
            },
    {
        match item {
            None => NextStep::Finished(None),
            Some(Err(e)) => NextStep::Finished(Some(Err(e))),
            Some(Ok(Message::Binary(b))) => NextStep::Finished(Some(Ok(b))),
            Some(Ok(_)) => NextStep::Skip,
        }
    }
}

/// Resolves to the next text payload of a message stream: non-text messages
/// are skipped, errors and the end of the stream pass through.
pub struct Text;

impl Text {
    pub fn new() -> (r: Self) {
        Text
    }

    /// Decide on one ready stream item.
    pub fn step(&self, item: Option<Result<Message, ChannelError>>) -> (r: NextStep<String>)
        ensures
            item is None ==> r == NextStep::Finished(None::<Result<String, ChannelError>>),
            item matches Some(Err(e)) ==> r == NextStep::Finished(
                Some(Err::<String, ChannelError>(e)),
            ),
            item matches Some(Ok(m)) ==> match m {
                Message::Text(t) => r == NextStep::Finished(Some(Ok::<String, ChannelError>(t))),
                _ => r == NextStep::<String>::Skip,
            },
    {
        match item {
            None => NextStep::Finished(None),
            Some(Err(e)) => NextStep::Finished(Some(Err(e))),
            Some(Ok(Message::Text(t))) => NextStep::Finished(Some(Ok(t))),
            Some(Ok(_)) => NextStep::Skip,
        }
    }
}

/// Resolves to the next text payload of a message stream parsed as a JSON
/// document: non-text messages are skipped, channel errors and the end of
/// the stream pass through, and a parse failure is surfaced inline for the
/// affected message only.
pub struct Json;

impl Json {
    pub fn new() -> (r: Self) {
        Json
    }

    /// Decide on one ready stream item.
    pub fn step(&self, item: Option<Result<Message, ChannelError>>) -> (r: NextStep<
        Result<serde_json::Value, EncodingError>,
    >)
        ensures
            item is None ==> (r matches NextStep::Finished(o) && o is None),
            item matches Some(Err(e)) ==> (r matches NextStep::Finished(Some(Err(e2))) && e2 == e),
            item matches Some(Ok(m)) ==> match m {
                Message::Text(t) => (r matches NextStep::Finished(Some(Ok(p))) && (p is Ok
                    <==> json_parse_ok(t@))),
                _ => r is Skip,
            },
    {
        match item {
            None => NextStep::Finished(None),
            Some(Err(e)) => NextStep::Finished(Some(Err(e))),
            Some(Ok(Message::Text(t))) => NextStep::Finished(Some(Ok(parse_json(t.as_str())))),
            Some(Ok(_)) => NextStep::Skip,
        }
    }
}

} // verus!
