use vstd::prelude::*;

use crate::error::DecodeError;
use crate::event::{Event, EventView, EventsResponse};
use crate::json::{get, Json, JsonNumber, JsonView};

verus! {

/// The string held by `j`, where it is a string.
pub open spec fn text_of(j: Option<JsonView>) -> Option<Seq<char>> {
    match j {
        Some(JsonView::Str(s)) => Some(s),
        _ => None,
    }
}

/// The number held by `j`, where it is an integer that fits in a `u32`.
pub open spec fn u32_of(j: Option<JsonView>) -> Option<u32> {
    match j {
        Some(JsonView::Number(JsonNumber::PosInt(n))) => if n <= u32::MAX {
            Some(n as u32)
        } else {
            None
        },
        _ => None,
    }
}

/// The event that `j` records, where it is an object with a string `text`
/// and integers `x` and `y` that fit in a `u32`. Other members are ignored.
pub open spec fn event_of(j: JsonView) -> Option<EventView> {
    let text = text_of(get(j, "text"@));
    let x = u32_of(get(j, "x"@));
    let y = u32_of(get(j, "y"@));
    if text is Some && x is Some && y is Some {
        Some(EventView { text: text->0, x: x->0, y: y->0 })
    } else {
        None
    }
}

/// The events that a listing body records, in order: the body is an object
/// whose `events` member is an array of event records.
pub open spec fn events_of(j: JsonView) -> Option<Seq<EventView>> {
    match get(j, "events"@) {
        Some(JsonView::Array(items)) => if forall|i: int|
            0 <= i < items.len() ==> (#[trigger] event_of(items[i])) is Some {
            Some(items.map_values(|e: JsonView| event_of(e)->0))
        } else {
            None
        },
        _ => None,
    }
}

fn text_field(j: &Json, key: &str) -> (r: Option<String>)
    ensures
        match r {
            Some(s) => text_of(get(j@, key@)) == Some(s@),
            None => text_of(get(j@, key@)) is None,
        },
{
    match j.get(key) {
        Some(Json::Str(s)) => Some(s.clone()),
        _ => None,
    }
}

fn u32_field(j: &Json, key: &str) -> (r: Option<u32>)
    ensures
        r == u32_of(get(j@, key@)),
{
    match j.get(key) {
        Some(Json::Number(JsonNumber::PosInt(n))) => if *n <= u32::MAX as u64 {
            Some(*n as u32)
        } else {
            None
        },
        _ => None,
    }
}

/// Reads one event record.
pub fn decode_event(j: &Json) -> (r: Option<Event>)
    ensures
        match r {
            Some(e) => event_of(j@) == Some(e@),
            None => event_of(j@) is None,
        },
{
    let text = text_field(j, "text");
    let x = u32_field(j, "x");
    let y = u32_field(j, "y");
    match (text, x, y) {
        (Some(text), Some(x), Some(y)) => Some(Event { text, x, y }),
        _ => None,
    }
}

/// Reads the body of an event listing, `{"events": [{"text", "x", "y"}, ...]}`,
/// keeping the order of the events.
pub fn decode_events(j: &Json) -> (r: Result<EventsResponse, DecodeError>)
    ensures
        match r {
            Ok(resp) => events_of(j@) == Some(resp@),
            Err(e) => events_of(j@) is None && e is Schema,
        },
{
    let items = match j.get("events") {
        Some(Json::Array(items)) => items,
        _ => return Err(DecodeError::Schema),
    };
    let ghost vs = match get(j@, "events"@) {
        Some(JsonView::Array(vs)) => vs,
        _ => Seq::empty(),
    };
    assert(get(j@, "events"@) == Some(JsonView::Array(vs)));
    assert(vs.len() == items@.len());
    let mut events: Vec<Event> = Vec::new();
    let mut i: usize = 0;
    while i < items.len()
        invariant
            0 <= i <= items@.len(),
            vs.len() == items@.len(),
            forall|k: int| 0 <= k < vs.len() ==> #[trigger] vs[k] == items@[k]@,
            get(j@, "events"@) == Some(JsonView::Array(vs)),
            events@.len() == i,
            forall|k: int| 0 <= k < i ==> (#[trigger] event_of(vs[k])) is Some,
            forall|k: int| 0 <= k < i ==> event_of(vs[k]) == Some(#[trigger] events@[k]@),
        decreases items.len() - i,
    {
        match decode_event(&items[i]) {
            Some(e) => events.push(e),
            None => {
                assert(event_of(vs[i as int]) is None);
                return Err(DecodeError::Schema);
            },
        }
        i = i + 1;
    }
    let resp = EventsResponse { events };
    assert(resp@ =~= vs.map_values(|e: JsonView| event_of(e)->0));
    Ok(resp)
}

} // verus!
