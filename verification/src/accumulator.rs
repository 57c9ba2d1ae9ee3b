//! The tool-call accumulator: one slot that gathers the pieces of a tool
//! call's arguments between the start and the stop of its block.

use crate::choice::{item_view, ChoiceView, DecodeError, FailureKind, StreamingChoice};
use crate::event::{Content, ContentDelta, ContentDeltaView, ContentView, EventView, StreamingEvent};
use crate::json::{json_parse, parse_json, Json};
use vstd::prelude::*;
use vstd::string::StringExecFns;

verus! {

/// Model of a [`ToolCallState`].
pub struct ToolCallView {
    pub name: Seq<char>,
    pub id: Seq<char>,
    pub input_json: Seq<char>,
}

/// A tool call whose arguments are still arriving.
#[derive(Debug, Default)]
pub struct ToolCallState {
    pub name: String,
    pub id: String,
    pub input_json: String,
}

impl View for ToolCallState {
    type V = ToolCallView;

    open spec fn view(&self) -> ToolCallView {
        ToolCallView { name: self.name@, id: self.id@, input_json: self.input_json@ }
    }
}

/// Model of the accumulator: idle, or gathering one tool call.
pub open spec fn slot_view(slot: Option<ToolCallState>) -> Option<ToolCallView> {
    match slot {
        Some(call) => Some(call@),
        None => None,
    }
}

/// The document that gathered argument text stands for. No text at all
/// stands for the empty object.
pub open spec fn parsed_arguments(input_json: Seq<char>) -> Option<Json> {
    if input_json.len() == 0 {
        Some(Json::empty_object())
    } else {
        json_parse(input_json)
    }
}

/// The item that closes a tool call.
pub open spec fn finished_call(call: ToolCallView) -> Result<ChoiceView, FailureKind> {
    match parsed_arguments(call.input_json) {
        Some(arguments) => Ok(ChoiceView::ToolCall(call.name, call.id, arguments)),
        None => Err(FailureKind::ToolArgumentsMalformed),
    }
}

/// The accumulator after an event.
pub open spec fn next_slot(slot: Option<ToolCallView>, event: EventView) -> Option<ToolCallView> {
    match event {
        EventView::ContentBlockStart { content_block: ContentView::ToolUse { id, name }, .. } => {
            Some(ToolCallView { name, id, input_json: Seq::empty() })
        },
        EventView::ContentBlockDelta {
            delta: ContentDeltaView::InputJsonDelta { partial_json },
            ..
        } => match slot {
            Some(call) => Some(
                ToolCallView { input_json: call.input_json + partial_json, ..call },
            ),
            None => None,
        },
        EventView::ContentBlockStop { .. } => None,
        _ => slot,
    }
}

/// What an event puts into the output, if anything.
pub open spec fn emitted(slot: Option<ToolCallView>, event: EventView) -> Option<
    Result<ChoiceView, FailureKind>,
> {
    match event {
        EventView::ContentBlockDelta { delta: ContentDeltaView::TextDelta { text }, .. } => {
            if slot is None {
                Some(Ok(ChoiceView::Message(text)))
            } else {
                None
            }
        },
        EventView::ContentBlockStop { .. } => match slot {
            Some(call) => Some(finished_call(call)),
            None => None,
        },
        _ => None,
    }
}

/// The accumulator after a run of events, and the items that they put out,
/// in order.
pub open spec fn run_events(slot: Option<ToolCallView>, events: Seq<EventView>) -> (
    Option<ToolCallView>,
    Seq<Result<ChoiceView, FailureKind>>,
)
    decreases events.len(),
{
    if events.len() == 0 {
        (slot, Seq::empty())
    } else {
        let (before, items) = run_events(slot, events.drop_last());
        let after = next_slot(before, events.last());
        match emitted(before, events.last()) {
            Some(item) => (after, items.push(item)),
            None => (after, items),
        }
    }
}

/// Model of what [`handle_event`] returns.
pub open spec fn emitted_view(item: Option<Result<StreamingChoice, DecodeError>>) -> Option<
    Result<ChoiceView, FailureKind>,
> {
    match item {
        Some(item) => Some(item_view(item)),
        None => None,
    }
}

/// Feeds one event to the accumulator.
///
/// A text delta passes through while no tool call is open and is dropped
/// while one is. A tool-use block start opens a call, argument deltas extend
/// it, and the block stop closes it: the gathered text is parsed and comes out
/// as a tool call, or as a failure where it is not valid JSON. Every other
/// event leaves the accumulator as it is and puts out nothing.
pub fn handle_event(event: &StreamingEvent, current_tool_call: &mut Option<ToolCallState>) -> (r:
    Option<Result<StreamingChoice, DecodeError>>)
    ensures
        slot_view(*final(current_tool_call)) == next_slot(slot_view(*old(current_tool_call)), event@),
        emitted_view(r) == emitted(slot_view(*old(current_tool_call)), event@),
{
    match event {
        StreamingEvent::ContentBlockDelta { delta, .. } => match delta {
            ContentDelta::TextDelta { text } => {
                if current_tool_call.is_none() {
                    return Some(Ok(StreamingChoice::Message(text.clone())));
                }
                None
            },
            ContentDelta::InputJsonDelta { partial_json } => {
                match current_tool_call {
                    Some(tool_call) => {
                        tool_call.input_json.append(partial_json.as_str());
                    },
                    None => {},
                }
                None
            },
        },
        StreamingEvent::ContentBlockStart { content_block, .. } => match content_block {
            Content::ToolUse { id, name } => {
                *current_tool_call = Some(
                    ToolCallState { name: name.clone(), id: id.clone(), input_json: String::new() },
                );
                None
            },
            _ => None,
        },
        StreamingEvent::ContentBlockStop { .. } => {
            match current_tool_call.take() {
                Some(tool_call) => {
                    let parsed = if tool_call.input_json.as_str().is_empty() {
                        parse_json("{}")
                    } else {
                        parse_json(tool_call.input_json.as_str())
                    };
                    match parsed {
                        Ok(arguments) => Some(
                            Ok(StreamingChoice::ToolCall(tool_call.name, tool_call.id, arguments)),
                        ),
                        Err(cause) => Some(Err(DecodeError::ToolArgumentsMalformed(cause))),
                    }
                },
                None => None,
            }
        },
        StreamingEvent::MessageStart { .. }
        | StreamingEvent::MessageDelta { .. }
        | StreamingEvent::MessageStop
        | StreamingEvent::Ping
        | StreamingEvent::Unknown => None,
    }
}

} // verus!
