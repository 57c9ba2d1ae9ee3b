//! The event decoder: from one JSON payload to one [`StreamingEvent`].
//!
//! An event is a JSON object whose member `type` names its kind. Kinds are
//! matched without regard to ASCII case. A kind that is not known gives
//! [`StreamingEvent::Unknown`]; a known kind whose members are missing or of
//! the wrong sort makes the payload malformed.

use crate::choice::DecodeError;
use crate::event::{
    contents_view, optional_text_view, Content, ContentDelta, ContentDeltaView, ContentView,
    EventView, MessageDelta, MessageDeltaView, MessageStart, MessageStartView, PartialUsage,
    StreamingEvent, Usage,
};
use crate::json::{json_model, json_parse, member, parse_json, Json};
use crate::text::{chars_of, eq_ignoring_ascii_case, same_ignoring_ascii_case};
use vstd::prelude::*;
use vstd::string::StringExecFns;

verus! {

/// A member that has to be a text.
pub open spec fn text_of(member: Option<Json>) -> Option<Seq<char>> {
    match member {
        Some(Json::Text(text)) => Some(text),
        _ => None,
    }
}

/// A member that may be a text, `null` or missing. The outer `None` says
/// that it is something else.
pub open spec fn optional_text_of(member: Option<Json>) -> Option<Option<Seq<char>>> {
    match member {
        None => Some(None),
        Some(Json::Null) => Some(None),
        Some(Json::Text(text)) => Some(Some(text)),
        _ => None,
    }
}

/// A member that has to be a count that fits in 64 bits.
pub open spec fn count_of(member: Option<Json>) -> Option<u64> {
    match member {
        Some(Json::Integer(n)) => if 0 <= n <= u64::MAX {
            Some(n as u64)
        } else {
            None
        },
        _ => None,
    }
}

/// A member that has to be a count that fits in a machine word.
pub open spec fn index_of(member: Option<Json>) -> Option<usize> {
    match member {
        Some(Json::Integer(n)) => if 0 <= n <= usize::MAX {
            Some(n as usize)
        } else {
            None
        },
        _ => None,
    }
}

/// A member that may be a machine-word count, `null` or missing. The outer
/// `None` says that it is something else.
pub open spec fn optional_index_of(member: Option<Json>) -> Option<Option<usize>> {
    match member {
        None => Some(None),
        Some(Json::Null) => Some(None),
        Some(other) => match index_of(Some(other)) {
            Some(n) => Some(Some(n)),
            None => None,
        },
    }
}

/// The kind that an object names in its member `type`.
pub open spec fn kind_of(document: Json) -> Option<Seq<char>> {
    text_of(document.member("type"@))
}

/// The content block that a document describes.
pub open spec fn content_of(document: Json) -> Option<ContentView> {
    match kind_of(document) {
        None => None,
        Some(kind) => if same_ignoring_ascii_case(kind, "text"@) {
            match text_of(document.member("text"@)) {
                Some(text) => Some(ContentView::Text { text }),
                None => None,
            }
        } else if same_ignoring_ascii_case(kind, "tool_use"@) {
            match (text_of(document.member("id"@)), text_of(document.member("name"@))) {
                (Some(id), Some(name)) => Some(ContentView::ToolUse { id, name }),
                _ => None,
            }
        } else {
            Some(ContentView::Other)
        },
    }
}

/// The content blocks that an array describes, if it describes one with
/// each element.
pub open spec fn contents_of(member: Option<Json>) -> Option<Seq<ContentView>> {
    match member {
        Some(Json::Array(elements)) => if forall|i: int|
            0 <= i < elements.len() ==> (#[trigger] content_of(elements[i])) is Some {
            Some(Seq::new(elements.len(), |i: int| content_of(elements[i])->Some_0))
        } else {
            None
        },
        _ => None,
    }
}

/// The token counts that a document describes.
pub open spec fn usage_of(member: Option<Json>) -> Option<Usage> {
    match member {
        None => None,
        Some(document) => match (
            count_of(document.member("input_tokens"@)),
            count_of(document.member("output_tokens"@)),
        ) {
            (Some(input_tokens), Some(output_tokens)) => Some(
                Usage { input_tokens, output_tokens },
            ),
            _ => None,
        },
    }
}

/// The running token counts that a document describes.
pub open spec fn partial_usage_of(member: Option<Json>) -> Option<PartialUsage> {
    match member {
        None => None,
        Some(document) => match (
            index_of(document.member("output_tokens"@)),
            optional_index_of(document.member("input_tokens"@)),
        ) {
            (Some(output_tokens), Some(input_tokens)) => Some(
                PartialUsage { output_tokens, input_tokens },
            ),
            _ => None,
        },
    }
}

/// The message header that a document describes.
pub open spec fn message_start_of(member: Option<Json>) -> Option<MessageStartView> {
    match member {
        None => None,
        Some(document) => match (
            text_of(document.member("id"@)),
            text_of(document.member("role"@)),
            contents_of(document.member("content"@)),
            text_of(document.member("model"@)),
            optional_text_of(document.member("stop_reason"@)),
            optional_text_of(document.member("stop_sequence"@)),
            usage_of(document.member("usage"@)),
        ) {
            (
                Some(id),
                Some(role),
                Some(content),
                Some(model),
                Some(stop_reason),
                Some(stop_sequence),
                Some(usage),
            ) => Some(
                MessageStartView { id, role, content, model, stop_reason, stop_sequence, usage },
            ),
            _ => None,
        },
    }
}

/// The block delta that a document describes. Here an unknown kind is an
/// error: a delta that cannot be applied must not pass in silence.
pub open spec fn content_delta_of(member: Option<Json>) -> Option<ContentDeltaView> {
    match member {
        None => None,
        Some(document) => match kind_of(document) {
            None => None,
            Some(kind) => if same_ignoring_ascii_case(kind, "text_delta"@) {
                match text_of(document.member("text"@)) {
                    Some(text) => Some(ContentDeltaView::TextDelta { text }),
                    None => None,
                }
            } else if same_ignoring_ascii_case(kind, "input_json_delta"@) {
                match text_of(document.member("partial_json"@)) {
                    Some(partial_json) => Some(ContentDeltaView::InputJsonDelta { partial_json }),
                    None => None,
                }
            } else {
                None
            },
        },
    }
}

/// The message delta that a document describes.
pub open spec fn message_delta_of(member: Option<Json>) -> Option<MessageDeltaView> {
    match member {
        None => None,
        Some(document) => match (
            optional_text_of(document.member("stop_reason"@)),
            optional_text_of(document.member("stop_sequence"@)),
        ) {
            (Some(stop_reason), Some(stop_sequence)) => Some(
                MessageDeltaView { stop_reason, stop_sequence },
            ),
            _ => None,
        },
    }
}

/// The event that a document describes, `None` where it describes none.
pub open spec fn event_of_json(document: Json) -> Option<EventView> {
    match kind_of(document) {
        None => None,
        Some(kind) => if same_ignoring_ascii_case(kind, "message_start"@) {
            match message_start_of(document.member("message"@)) {
                Some(message) => Some(EventView::MessageStart { message }),
                None => None,
            }
        } else if same_ignoring_ascii_case(kind, "content_block_start"@) {
            match (
                index_of(document.member("index"@)),
                match document.member("content_block"@) {
                    Some(block) => content_of(block),
                    None => None,
                },
            ) {
                (Some(index), Some(content_block)) => Some(
                    EventView::ContentBlockStart { index, content_block },
                ),
                _ => None,
            }
        } else if same_ignoring_ascii_case(kind, "content_block_delta"@) {
            match (
                index_of(document.member("index"@)),
                content_delta_of(document.member("delta"@)),
            ) {
                (Some(index), Some(delta)) => Some(EventView::ContentBlockDelta { index, delta }),
                _ => None,
            }
        } else if same_ignoring_ascii_case(kind, "content_block_stop"@) {
            match index_of(document.member("index"@)) {
                Some(index) => Some(EventView::ContentBlockStop { index }),
                None => None,
            }
        } else if same_ignoring_ascii_case(kind, "message_delta"@) {
            match (
                message_delta_of(document.member("delta"@)),
                partial_usage_of(document.member("usage"@)),
            ) {
                (Some(delta), Some(usage)) => Some(EventView::MessageDelta { delta, usage }),
                _ => None,
            }
        } else if same_ignoring_ascii_case(kind, "message_stop"@) {
            Some(EventView::MessageStop)
        } else if same_ignoring_ascii_case(kind, "ping"@) {
            Some(EventView::Ping)
        } else {
            Some(EventView::Unknown)
        },
    }
}

/// The event that a payload describes: the text has to be JSON, and the
/// document an event.
pub open spec fn event_of_payload(payload: Seq<char>) -> Option<EventView> {
    match json_parse(payload) {
        Some(document) => event_of_json(document),
        None => None,
    }
}

/// The report on a payload that could not be decoded.
pub open spec fn malformed_report(detail: Seq<char>, payload: Seq<char>) -> Seq<char> {
    "Failed to parse JSON: "@ + detail + " (Data: "@ + payload + ")"@
}

/// Whether a text is the report on this payload, with whatever detail.
pub open spec fn reports_payload(report: Seq<char>, payload: Seq<char>) -> bool {
    exists|detail: Seq<char>| report == #[trigger] malformed_report(detail, payload)
}

fn report_malformed(detail: &str, payload: &str) -> (r: String)
    ensures
        r@ == malformed_report(detail@, payload@),
{
    let mut report = "Failed to parse JSON: ".to_owned();
    report.append(detail);
    report.append(" (Data: ");
    report.append(payload);
    report.append(")");
    report
}

fn text_member(object: &serde_json::Value, key: &str) -> (r: Option<String>)
    ensures
        optional_text_view(r) == text_of(json_model(*object).member(key@)),
{
    match member(object, key) {
        Some(value) => match value.as_str() {
            Some(text) => Some(text.to_owned()),
            None => None,
        },
        None => None,
    }
}

fn optional_text_member(object: &serde_json::Value, key: &str) -> (r: Option<Option<String>>)
    ensures
        match r {
            Some(text) => optional_text_of(json_model(*object).member(key@)) == Some(
                optional_text_view(text),
            ),
            None => optional_text_of(json_model(*object).member(key@)) is None,
        },
{
    match member(object, key) {
        None => Some(None),
        Some(value) => if value.is_null() {
            Some(None)
        } else {
            match value.as_str() {
                Some(text) => Some(Some(text.to_owned())),
                None => None,
            }
        },
    }
}

fn count_member(object: &serde_json::Value, key: &str) -> (r: Option<u64>)
    ensures
        r == count_of(json_model(*object).member(key@)),
{
    match member(object, key) {
        Some(value) => value.as_u64(),
        None => None,
    }
}

fn index_member(object: &serde_json::Value, key: &str) -> (r: Option<usize>)
    ensures
        r == index_of(json_model(*object).member(key@)),
{
    match count_member(object, key) {
        Some(n) => if n <= usize::MAX as u64 {
            Some(n as usize)
        } else {
            None
        },
        None => None,
    }
}

fn optional_index_member(object: &serde_json::Value, key: &str) -> (r: Option<Option<usize>>)
    ensures
        r == optional_index_of(json_model(*object).member(key@)),
{
    match member(object, key) {
        None => Some(None),
        Some(value) => if value.is_null() {
            Some(None)
        } else {
            match index_member(object, key) {
                Some(n) => Some(Some(n)),
                None => None,
            }
        },
    }
}

/// Whether a kind, as the payload spells it, is the kind `name`.
fn kind_is(kind: &Vec<char>, name: &str) -> (r: bool)
    ensures
        r == same_ignoring_ascii_case(kind@, name@),
{
    let name = chars_of(name);
    eq_ignoring_ascii_case(kind.as_slice(), name.as_slice())
}

fn kind_member(object: &serde_json::Value) -> (r: Option<Vec<char>>)
    ensures
        match r {
            Some(kind) => kind_of(json_model(*object)) == Some(kind@),
            None => kind_of(json_model(*object)) is None,
        },
{
    match member(object, "type") {
        Some(value) => match value.as_str() {
            Some(text) => Some(chars_of(text)),
            None => None,
        },
        None => None,
    }
}

fn decode_content(document: &serde_json::Value) -> (r: Option<Content>)
    ensures
        match r {
            Some(block) => content_of(json_model(*document)) == Some(block@),
            None => content_of(json_model(*document)) is None,
        },
{
    let kind = match kind_member(document) {
        Some(kind) => kind,
        None => { return None; },
    };
    if kind_is(&kind, "text") {
        match text_member(document, "text") {
            Some(text) => Some(Content::Text { text }),
            None => None,
        }
    } else if kind_is(&kind, "tool_use") {
        let id = text_member(document, "id");
        let name = text_member(document, "name");
        match (id, name) {
            (Some(id), Some(name)) => Some(Content::ToolUse { id, name }),
            _ => None,
        }
    } else {
        Some(Content::Other)
    }
}

fn decode_contents(object: &serde_json::Value, key: &str) -> (r: Option<Vec<Content>>)
    ensures
        match r {
            Some(blocks) => contents_of(json_model(*object).member(key@)) == Some(
                contents_view(blocks@),
            ),
            None => contents_of(json_model(*object).member(key@)) is None,
        },
{
    let items = match member(object, key) {
        Some(value) => match value.as_array() {
            Some(items) => items,
            None => { return None; },
        },
        None => { return None; },
    };
    let ghost elements = json_model(*object).member(key@)->Some_0->Array_0;
    let mut blocks: Vec<Content> = Vec::new();
    let mut i: usize = 0;
    while i < items.len()
        invariant
            i <= items.len(),
            json_model(*object).member(key@) == Some(Json::Array(elements)),
            elements.len() == items@.len(),
            forall|k: int| 0 <= k < items@.len() ==> json_model(#[trigger] items@[k]) == elements[k],
            blocks@.len() == i,
            forall|k: int|
                0 <= k < i ==> content_of(elements[k]) == Some((#[trigger] blocks@[k])@),
        decreases items.len() - i,
    {
        match decode_content(&items[i]) {
            Some(block) => {
                blocks.push(block);
            },
            None => {
                assert(content_of(elements[i as int]) is None);
                return None;
            },
        }
        i += 1;
    }
    proof {
        assert forall|k: int| 0 <= k < elements.len() implies (#[trigger] content_of(
            elements[k],
        )) is Some by {
            assert(content_of(elements[k]) == Some(blocks@[k]@));
        }
        assert(contents_view(blocks@) =~= Seq::new(
            elements.len(),
            |k: int| content_of(elements[k])->Some_0,
        ));
    }
    Some(blocks)
}

fn decode_usage(object: &serde_json::Value, key: &str) -> (r: Option<Usage>)
    ensures
        r == usage_of(json_model(*object).member(key@)),
{
    match member(object, key) {
        None => None,
        Some(document) => {
            let input_tokens = count_member(document, "input_tokens");
            let output_tokens = count_member(document, "output_tokens");
            match (input_tokens, output_tokens) {
                (Some(input_tokens), Some(output_tokens)) => Some(
                    Usage { input_tokens, output_tokens },
                ),
                _ => None,
            }
        },
    }
}

fn decode_partial_usage(object: &serde_json::Value, key: &str) -> (r: Option<PartialUsage>)
    ensures
        r == partial_usage_of(json_model(*object).member(key@)),
{
    match member(object, key) {
        None => None,
        Some(document) => {
            let output_tokens = index_member(document, "output_tokens");
            let input_tokens = optional_index_member(document, "input_tokens");
            match (output_tokens, input_tokens) {
                (Some(output_tokens), Some(input_tokens)) => Some(
                    PartialUsage { output_tokens, input_tokens },
                ),
                _ => None,
            }
        },
    }
}

fn decode_message_start(object: &serde_json::Value, key: &str) -> (r: Option<MessageStart>)
    ensures
        match r {
            Some(message) => message_start_of(json_model(*object).member(key@)) == Some(message@),
            None => message_start_of(json_model(*object).member(key@)) is None,
        },
{
    match member(object, key) {
        None => None,
        Some(document) => {
            let id = text_member(document, "id");
            let role = text_member(document, "role");
            let content = decode_contents(document, "content");
            let model = text_member(document, "model");
            let stop_reason = optional_text_member(document, "stop_reason");
            let stop_sequence = optional_text_member(document, "stop_sequence");
            let usage = decode_usage(document, "usage");
            match (id, role, content, model, stop_reason, stop_sequence, usage) {
                (
                    Some(id),
                    Some(role),
                    Some(content),
                    Some(model),
                    Some(stop_reason),
                    Some(stop_sequence),
                    Some(usage),
                ) => Some(
                    MessageStart { id, role, content, model, stop_reason, stop_sequence, usage },
                ),
                _ => None,
            }
        },
    }
}

fn decode_content_delta(object: &serde_json::Value, key: &str) -> (r: Option<ContentDelta>)
    ensures
        match r {
            Some(delta) => content_delta_of(json_model(*object).member(key@)) == Some(delta@),
            None => content_delta_of(json_model(*object).member(key@)) is None,
        },
{
    match member(object, key) {
        None => None,
        Some(document) => {
            let kind = match kind_member(document) {
                Some(kind) => kind,
                None => { return None; },
            };
            if kind_is(&kind, "text_delta") {
                match text_member(document, "text") {
                    Some(text) => Some(ContentDelta::TextDelta { text }),
                    None => None,
                }
            } else if kind_is(&kind, "input_json_delta") {
                match text_member(document, "partial_json") {
                    Some(partial_json) => Some(ContentDelta::InputJsonDelta { partial_json }),
                    None => None,
                }
            } else {
                None
            }
        },
    }
}

fn decode_message_delta(object: &serde_json::Value, key: &str) -> (r: Option<MessageDelta>)
    ensures
        match r {
            Some(delta) => message_delta_of(json_model(*object).member(key@)) == Some(delta@),
            None => message_delta_of(json_model(*object).member(key@)) is None,
        },
{
    match member(object, key) {
        None => None,
        Some(document) => {
            let stop_reason = optional_text_member(document, "stop_reason");
            let stop_sequence = optional_text_member(document, "stop_sequence");
            match (stop_reason, stop_sequence) {
                (Some(stop_reason), Some(stop_sequence)) => Some(
                    MessageDelta { stop_reason, stop_sequence },
                ),
                _ => None,
            }
        },
    }
}

/// Reads an event out of a parsed document.
fn decode_document(document: &serde_json::Value) -> (r: Option<StreamingEvent>)
    ensures
        match r {
            Some(event) => event_of_json(json_model(*document)) == Some(event@),
            None => event_of_json(json_model(*document)) is None,
        },
{
    let kind = match kind_member(document) {
        Some(kind) => kind,
        None => { return None; },
    };
    if kind_is(&kind, "message_start") {
        match decode_message_start(document, "message") {
            Some(message) => Some(StreamingEvent::MessageStart { message }),
            None => None,
        }
    } else if kind_is(&kind, "content_block_start") {
        let index = index_member(document, "index");
        let content_block = match member(document, "content_block") {
            Some(block) => decode_content(block),
            None => None,
        };
        match (index, content_block) {
            (Some(index), Some(content_block)) => Some(
                StreamingEvent::ContentBlockStart { index, content_block },
            ),
            _ => None,
        }
    } else if kind_is(&kind, "content_block_delta") {
        let index = index_member(document, "index");
        let delta = decode_content_delta(document, "delta");
        match (index, delta) {
            (Some(index), Some(delta)) => Some(StreamingEvent::ContentBlockDelta { index, delta }),
            _ => None,
        }
    } else if kind_is(&kind, "content_block_stop") {
        match index_member(document, "index") {
            Some(index) => Some(StreamingEvent::ContentBlockStop { index }),
            None => None,
        }
    } else if kind_is(&kind, "message_delta") {
        let delta = decode_message_delta(document, "delta");
        let usage = decode_partial_usage(document, "usage");
        match (delta, usage) {
            (Some(delta), Some(usage)) => Some(StreamingEvent::MessageDelta { delta, usage }),
            _ => None,
        }
    } else if kind_is(&kind, "message_stop") {
        Some(StreamingEvent::MessageStop)
    } else if kind_is(&kind, "ping") {
        Some(StreamingEvent::Ping)
    } else {
        Some(StreamingEvent::Unknown)
    }
}

/// Decodes one payload.
///
/// The payload is decoded exactly when it is JSON and describes an event.
/// Otherwise the failure is [`DecodeError::JsonMalformed`], and its text
/// quotes the payload.
pub fn decode_event(payload: &str) -> (r: Result<StreamingEvent, DecodeError>)
    ensures
        match r {
            Ok(event) => event_of_payload(payload@) == Some(event@),
            Err(failure) => {
                &&& event_of_payload(payload@) is None
                &&& failure matches DecodeError::JsonMalformed(report)
                &&& reports_payload(report@, payload@)
            },
        },
{
    match parse_json(payload) {
        Ok(document) => match decode_document(&document) {
            Some(event) => Ok(event),
            None => {
                let detail = "the payload does not describe an event";
                Err(DecodeError::JsonMalformed(report_malformed(detail, payload)))
            },
        },
        Err(cause) => {
            let detail = cause.to_string();
            Err(DecodeError::JsonMalformed(report_malformed(detail.as_str(), payload)))
        },
    }
}

} // verus!
