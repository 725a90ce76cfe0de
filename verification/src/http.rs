//! What the bot's web endpoints answer: the health check, a queue's status,
//! and the server-sent events that stream a queue to its watchers.

use vstd::prelude::*;
use crate::json::{encode_queue, queue_json};
use crate::queue::{entries_view, QueueEntry};

verus! {

/// The answer of the health check.
pub fn health_check() -> (answer: String)
    ensures
        answer@ == "OK"@,
{
    String::from_str("OK")
}

/// The status of a guild's queue: `open` or `closed`.
pub fn queue_status(is_open: bool) -> (status: String)
    ensures
        is_open ==> status@ == "open"@,
        !is_open ==> status@ == "closed"@,
{
    if is_open {
        String::from_str("open")
    } else {
        String::from_str("closed")
    }
}

/// A server-sent event: its name, if it has one, and its data.
pub struct SseEvent {
    pub event: Option<String>,
    pub data: String,
}

/// The first event of a queue's stream: the queue as it is when the stream
/// opens, as a JSON array.
pub fn sse_snapshot(queue: &Vec<QueueEntry>) -> (event: SseEvent)
    ensures
        event.event is None,
        event.data@ == queue_json(entries_view(queue@)),
{
    SseEvent { event: None, data: encode_queue(queue) }
}

/// The event sent after a queue changed: the queue read afresh, or, where
/// it could not be read (`None`), an `error` event that says so.
pub fn sse_update(queue: Option<&Vec<QueueEntry>>) -> (event: SseEvent)
    ensures
        queue matches Some(q) ==> event.event is None && event.data@ == queue_json(entries_view(q@)),
        queue is None ==> (event.event matches Some(name) && name@ == "error"@),
        queue is None ==> event.data@ == "Failed to load queue update"@,
{
    match queue {
        Some(q) => SseEvent { event: None, data: encode_queue(q) },
        None => SseEvent {
            event: Some(String::from_str("error")),
            data: String::from_str("Failed to load queue update"),
        },
    }
}

} // verus!
