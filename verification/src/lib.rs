//! Decoder for the streamed answers of a text-generation service.
//!
//! The service answers over server-sent events: lines of the form
//! `data: <json>`, delivered in chunks of bytes. A [`StreamDecoder`] takes the
//! chunks as they arrive and hands out the answer as it grows: fragments of
//! text, and tool calls whose arguments it has pieced together from the
//! fragments that the service sends.
//!
//! The stages are modules of their own: [`frame`] finds the payloads in a
//! chunk, [`decode`] reads a payload as an event, [`accumulator`] turns
//! events into output, and [`decoder`] runs the three on each chunk. Every
//! function is verified against a mathematical model of what it computes;
//! [`laws`] holds the theorems that follow. JSON itself is parsed by
//! `serde_json`, behind the contracts of [`json`].

pub mod accumulator;
pub mod choice;
pub mod decode;
pub mod decoder;
pub mod event;
pub mod frame;
pub mod json;
pub mod laws;
pub mod request;
pub mod text;

pub use accumulator::{handle_event, ToolCallState};
pub use choice::{DecodeError, StreamingChoice};
pub use decode::decode_event;
pub use decoder::StreamDecoder;
pub use event::{
    Content, ContentDelta, MessageDelta, MessageStart, PartialUsage, StreamingEvent, Usage,
};
