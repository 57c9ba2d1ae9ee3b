//! The events of a streamed answer, as the provider sends them.

use vstd::prelude::*;

verus! {

/// Model of an optional text.
pub open spec fn optional_text_view(text: Option<String>) -> Option<Seq<char>> {
    match text {
        Some(text) => Some(text@),
        None => None,
    }
}

/// Token counts of a whole message.
#[derive(Debug, PartialEq)]
pub struct Usage {
    pub input_tokens: u64,
    pub output_tokens: u64,
}

/// Token counts reported while the message is still growing.
#[derive(Debug, PartialEq)]
pub struct PartialUsage {
    pub output_tokens: usize,
    pub input_tokens: Option<usize>,
}

/// Model of a [`Content`] block.
pub enum ContentView {
    Text { text: Seq<char> },
    ToolUse { id: Seq<char>, name: Seq<char> },
    Other,
}

/// A content block as it is announced: plain text, a tool invocation, or a
/// kind this decoder has no use for.
#[derive(Debug, PartialEq)]
pub enum Content {
    Text { text: String },
    ToolUse { id: String, name: String },
    Other,
}

impl View for Content {
    type V = ContentView;

    open spec fn view(&self) -> ContentView {
        match self {
            Content::Text { text } => ContentView::Text { text: text@ },
            Content::ToolUse { id, name } => ContentView::ToolUse { id: id@, name: name@ },
            Content::Other => ContentView::Other,
        }
    }
}

/// Model of a run of content blocks.
pub open spec fn contents_view(blocks: Seq<Content>) -> Seq<ContentView> {
    blocks.map_values(|block: Content| block@)
}

/// Model of a [`MessageStart`].
pub struct MessageStartView {
    pub id: Seq<char>,
    pub role: Seq<char>,
    pub content: Seq<ContentView>,
    pub model: Seq<char>,
    pub stop_reason: Option<Seq<char>>,
    pub stop_sequence: Option<Seq<char>>,
    pub usage: Usage,
}

/// The message header that opens a stream.
#[derive(Debug, PartialEq)]
pub struct MessageStart {
    pub id: String,
    pub role: String,
    pub content: Vec<Content>,
    pub model: String,
    pub stop_reason: Option<String>,
    pub stop_sequence: Option<String>,
    pub usage: Usage,
}

impl View for MessageStart {
    type V = MessageStartView;

    open spec fn view(&self) -> MessageStartView {
        MessageStartView {
            id: self.id@,
            role: self.role@,
            content: contents_view(self.content@),
            model: self.model@,
            stop_reason: optional_text_view(self.stop_reason),
            stop_sequence: optional_text_view(self.stop_sequence),
            usage: self.usage,
        }
    }
}

/// Model of a [`ContentDelta`].
pub enum ContentDeltaView {
    TextDelta { text: Seq<char> },
    InputJsonDelta { partial_json: Seq<char> },
}

/// An addition to an open content block.
#[derive(Debug, PartialEq)]
pub enum ContentDelta {
    /// More of the answer's text.
    TextDelta { text: String },
    /// The next piece of a tool call's arguments, as JSON text.
    InputJsonDelta { partial_json: String },
}

impl View for ContentDelta {
    type V = ContentDeltaView;

    open spec fn view(&self) -> ContentDeltaView {
        match self {
            ContentDelta::TextDelta { text } => ContentDeltaView::TextDelta { text: text@ },
            ContentDelta::InputJsonDelta { partial_json } => ContentDeltaView::InputJsonDelta {
                partial_json: partial_json@,
            },
        }
    }
}

/// Model of a [`MessageDelta`].
pub struct MessageDeltaView {
    pub stop_reason: Option<Seq<char>>,
    pub stop_sequence: Option<Seq<char>>,
}

/// A change to the message as a whole.
#[derive(Debug, PartialEq)]
pub struct MessageDelta {
    pub stop_reason: Option<String>,
    pub stop_sequence: Option<String>,
}

impl View for MessageDelta {
    type V = MessageDeltaView;

    open spec fn view(&self) -> MessageDeltaView {
        MessageDeltaView {
            stop_reason: optional_text_view(self.stop_reason),
            stop_sequence: optional_text_view(self.stop_sequence),
        }
    }
}

/// Model of a [`StreamingEvent`].
#[allow(inconsistent_fields)]
pub enum EventView {
    MessageStart { message: MessageStartView },
    ContentBlockStart { index: usize, content_block: ContentView },
    ContentBlockDelta { index: usize, delta: ContentDeltaView },
    ContentBlockStop { index: usize },
    MessageDelta { delta: MessageDeltaView, usage: PartialUsage },
    MessageStop,
    Ping,
    Unknown,
}

impl EventView {
    /// Whether the event opens a tool-use block.
    pub open spec fn opens_tool_call(self) -> bool {
        self matches EventView::ContentBlockStart { content_block, .. }
            && content_block is ToolUse
    }

    /// The text of a text delta.
    pub open spec fn text_fragment(self) -> Option<Seq<char>> {
        match self {
            EventView::ContentBlockDelta { delta: ContentDeltaView::TextDelta { text }, .. } => Some(
                text,
            ),
            _ => None,
        }
    }

    /// The text of an argument delta.
    pub open spec fn argument_fragment(self) -> Option<Seq<char>> {
        match self {
            EventView::ContentBlockDelta {
                delta: ContentDeltaView::InputJsonDelta { partial_json },
                ..
            } => Some(partial_json),
            _ => None,
        }
    }
}

/// One event of the stream.
#[allow(inconsistent_fields)]
#[derive(Debug, PartialEq)]
pub enum StreamingEvent {
    MessageStart { message: MessageStart },
    ContentBlockStart { index: usize, content_block: Content },
    ContentBlockDelta { index: usize, delta: ContentDelta },
    ContentBlockStop { index: usize },
    MessageDelta { delta: MessageDelta, usage: PartialUsage },
    MessageStop,
    Ping,
    /// An event of a kind that this decoder does not know.
    Unknown,
}

impl View for StreamingEvent {
    type V = EventView;

    open spec fn view(&self) -> EventView {
        match self {
            StreamingEvent::MessageStart { message } => EventView::MessageStart {
                message: message@,
            },
            StreamingEvent::ContentBlockStart { index, content_block } => {
                EventView::ContentBlockStart { index: *index, content_block: content_block@ }
            },
            StreamingEvent::ContentBlockDelta { index, delta } => EventView::ContentBlockDelta {
                index: *index,
                delta: delta@,
            },
            StreamingEvent::ContentBlockStop { index } => EventView::ContentBlockStop {
                index: *index,
            },
            StreamingEvent::MessageDelta { delta, usage } => EventView::MessageDelta {
                delta: delta@,
                usage: *usage,
            },
            StreamingEvent::MessageStop => EventView::MessageStop,
            StreamingEvent::Ping => EventView::Ping,
            StreamingEvent::Unknown => EventView::Unknown,
        }
    }
}

} // verus!
