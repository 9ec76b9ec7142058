//! Classification of inbound text frames and decoding of their payloads.
use vstd::prelude::*;
use crate::events::{ParseError, WssMarketEvent, decodes_ok, decode_error, decodes_to, parse_market_event_value};
use crate::json::{Json, parse_json, json_accepts, json_tree};
use crate::text::{trim, trimmed, eq_ignore_ascii_case, same_ignore_ascii_case};

verus! {

/// What an inbound text frame is, before any JSON is parsed.
#[derive(Clone, Copy, Debug, PartialEq, Eq, Structural)]
pub enum FrameKind {
    /// A text `ping` or `pong`: dropped silently.
    Control,
    /// Text that cannot start a JSON object or array: dropped as noise.
    Noise,
    /// Text to decode as JSON.
    Payload,
}

pub open spec fn frame_kind(s: Seq<char>) -> FrameKind {
    let t = trimmed(s);
    if eq_ignore_ascii_case(t, "ping"@) || eq_ignore_ascii_case(t, "pong"@) {
        FrameKind::Control
    } else if t.len() > 0 && (t[0] == '{' || t[0] == '[') {
        FrameKind::Payload
    } else {
        FrameKind::Noise
    }
}

/// Classifies a text frame by its trimmed content.
pub fn classify_frame(text: &str) -> (r: FrameKind)
    ensures
        r == frame_kind(text@),
{
    let t = trim(text);
    if same_ignore_ascii_case(t, "ping") || same_ignore_ascii_case(t, "pong") {
        FrameKind::Control
    } else if t.unicode_len() > 0 && (t.get_char(0) == '{' || t.get_char(0) == '[') {
        FrameKind::Payload
    } else {
        FrameKind::Noise
    }
}

/// The elements a payload holds: those of a top-level array, or the value itself.
pub open spec fn frame_items(j: Json) -> Seq<Json> {
    match j {
        Json::Arr(items) => items@,
        _ => seq![j],
    }
}

/// `r` is the outcome of decoding `items` in order: every event when all of
/// them decode, else the error of the first element that does not.
pub open spec fn decodes_all(items: Seq<Json>, r: Result<Vec<WssMarketEvent>, ParseError>) -> bool {
    match r {
        Ok(events) => events@.len() == items.len() && forall|i: int| 0 <= i < items.len()
            ==> decodes_ok(#[trigger] items[i]) && decodes_to(items[i], events@[i]),
        Err(e) => exists|i: int| 0 <= i < items.len() && !decodes_ok(#[trigger] items[i])
            && decode_error(items[i], e) && forall|k: int| 0 <= k < i ==> decodes_ok(#[trigger] items[k]),
    }
}

/// Decodes every element of a parsed payload, in order.
pub fn market_events_from_value(j: &Json) -> (r: Result<Vec<WssMarketEvent>, ParseError>)
    ensures
        decodes_all(frame_items(*j), r),
{
    match j {
        Json::Arr(items) => {
            let mut events: Vec<WssMarketEvent> = Vec::new();
            let mut i: usize = 0;
            while i < items.len()
                invariant
                    frame_items(*j) == items@,
                    i <= items@.len(),
                    events@.len() == i,
                    forall|k: int| 0 <= k < i ==> decodes_ok(#[trigger] items@[k])
                        && decodes_to(items@[k], events@[k]),
                decreases items.len() - i,
            {
                match parse_market_event_value(&items[i]) {
                    Ok(e) => events.push(e),
                    Err(err) => {
                        assert(!decodes_ok(items@[i as int]) && decode_error(items@[i as int], err));
                        return Err(err);
                    },
                }
                i = i + 1;
            }
            Ok(events)
        },
        _ => {
            match parse_market_event_value(j) {
                Ok(e) => {
                    let mut events: Vec<WssMarketEvent> = Vec::new();
                    events.push(e);
                    Ok(events)
                },
                Err(err) => {
                    assert(frame_items(*j)[0] == *j);
                    Err(err)
                },
            }
        },
    }
}

/// Parses a payload frame and decodes the events it holds, in order.
pub fn parse_market_events(text: &str) -> (r: Result<Vec<WssMarketEvent>, ParseError>)
    ensures
        !json_accepts(text@) ==> (r matches Err(ParseError::InvalidJson(raw)) && raw@ == text@),
        json_accepts(text@) ==> decodes_all(frame_items(json_tree(text@)), r),
{
    match parse_json(text) {
        Some(j) => market_events_from_value(&j),
        None => Err(ParseError::InvalidJson(String::from_str(text))),
    }
}

} // verus!
