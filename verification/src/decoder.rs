//! The stream decoder: chunks of bytes in, text fragments and tool calls out.
//!
//! The decoder does no reading of its own. Whoever owns the connection hands
//! it each chunk as it arrives and stops reading once the decoder has
//! finished.

use crate::accumulator::{
    emitted, handle_event, next_slot, slot_view, ToolCallState, ToolCallView,
};
use crate::choice::{item_view, items_view, ChoiceView, DecodeError, FailureKind, StreamingChoice};
use crate::decode::{decode_event, event_of_payload, reports_payload};
use crate::event::StreamingEvent;
use crate::frame::{decode_chunk, payloads, split_payloads, texts_view};
use vstd::prelude::*;
use vstd::utf8::{decode_utf8, valid_utf8};

verus! {

/// Model of a [`StreamDecoder`]: the accumulator's slot, and whether the
/// stream has ended.
pub struct DecoderView {
    pub slot: Option<ToolCallView>,
    pub finished: bool,
}

impl DecoderView {
    /// The decoder before the first chunk.
    pub open spec fn start() -> DecoderView {
        DecoderView { slot: None, finished: false }
    }
}

/// The decoder after one payload, and the item that the payload gives.
///
/// A payload that is no event gives one failure and changes nothing. An
/// event goes to the accumulator; the event that stops the message also ends
/// the stream. After the end nothing is taken in and nothing comes out.
pub open spec fn payload_step(state: DecoderView, payload: Seq<char>) -> (
    DecoderView,
    Option<Result<ChoiceView, FailureKind>>,
) {
    if state.finished {
        (state, None)
    } else {
        match event_of_payload(payload) {
            None => (state, Some(Err(FailureKind::JsonMalformed))),
            Some(event) => (
                DecoderView { slot: next_slot(state.slot, event), finished: event is MessageStop },
                emitted(state.slot, event),
            ),
        }
    }
}

/// The decoder after a run of payloads, and the items that they give, in
/// order.
pub open spec fn run_payloads(state: DecoderView, payloads: Seq<Seq<char>>) -> (
    DecoderView,
    Seq<Result<ChoiceView, FailureKind>>,
)
    decreases payloads.len(),
{
    if payloads.len() == 0 {
        (state, Seq::empty())
    } else {
        let (before, items) = run_payloads(state, payloads.drop_last());
        let (after, item) = payload_step(before, payloads.last());
        match item {
            Some(item) => (after, items.push(item)),
            None => (after, items),
        }
    }
}

/// The decoder after one chunk, and the items that the chunk gives.
///
/// A chunk that is not well-formed UTF-8 gives one failure and ends the
/// stream. Any other chunk is read as text, on its own, and gives what the
/// payloads of its data lines give.
pub open spec fn chunk_step(state: DecoderView, chunk: Seq<u8>) -> (
    DecoderView,
    Seq<Result<ChoiceView, FailureKind>>,
) {
    if state.finished {
        (state, Seq::empty())
    } else if !valid_utf8(chunk) {
        (DecoderView { finished: true, ..state }, seq![Err(FailureKind::EncodingInvalid)])
    } else {
        run_payloads(state, payloads(decode_utf8(chunk)))
    }
}

/// Whether an item, if it reports a malformed payload, quotes one of these
/// payloads.
pub open spec fn reports_one_of(
    item: Result<StreamingChoice, DecodeError>,
    payloads: Seq<Seq<char>>,
) -> bool {
    item matches Err(DecodeError::JsonMalformed(report)) ==> exists|j: int|
        0 <= j < payloads.len() && reports_payload(report@, #[trigger] payloads[j])
}

/// Decoder for one streamed answer.
#[derive(Debug)]
pub struct StreamDecoder {
    current_tool_call: Option<ToolCallState>,
    finished: bool,
}

impl View for StreamDecoder {
    type V = DecoderView;

    closed spec fn view(&self) -> DecoderView {
        DecoderView { slot: slot_view(self.current_tool_call), finished: self.finished }
    }
}

impl StreamDecoder {
    /// A decoder for a stream that has not begun.
    pub fn new() -> (r: Self)
        ensures
            r@ == DecoderView::start(),
    {
        StreamDecoder { current_tool_call: None, finished: false }
    }

    /// Whether the stream has ended, so that no further chunk need be read.
    pub fn is_finished(&self) -> (r: bool)
        ensures
            r == self@.finished,
    {
        self.finished
    }

    /// Whether a tool call is open.
    pub fn in_tool_call(&self) -> (r: bool)
        ensures
            r == self@.slot is Some,
    {
        self.current_tool_call.is_some()
    }

    /// Takes in the payload of one data line.
    pub fn on_payload(&mut self, payload: &str) -> (r: Option<
        Result<StreamingChoice, DecodeError>,
    >)
        ensures
            final(self)@ == payload_step(old(self)@, payload@).0,
            match r {
                Some(item) => payload_step(old(self)@, payload@).1 == Some(item_view(item)),
                None => payload_step(old(self)@, payload@).1 is None,
            },
            r matches Some(Err(DecodeError::JsonMalformed(report)))
                ==> reports_payload(report@, payload@),
    {
        if self.finished {
            return None;
        }
        match decode_event(payload) {
            Ok(event) => {
                let item = handle_event(&event, &mut self.current_tool_call);
                match event {
                    StreamingEvent::MessageStop => {
                        self.finished = true;
                    },
                    _ => {},
                }
                item
            },
            Err(failure) => Some(Err(failure)),
        }
    }

    /// Takes in one chunk and hands out the items that it completes.
    pub fn feed(&mut self, chunk: &[u8]) -> (r: Vec<Result<StreamingChoice, DecodeError>>)
        ensures
            final(self)@ == chunk_step(old(self)@, chunk@).0,
            items_view(r@) == chunk_step(old(self)@, chunk@).1,
            forall|k: int|
                0 <= k < r@.len() ==> reports_one_of(
                    #[trigger] r@[k],
                    payloads(decode_utf8(chunk@)),
                ),
    {
        let mut items: Vec<Result<StreamingChoice, DecodeError>> = Vec::new();
        if self.finished {
            assert(items_view(items@) =~= Seq::empty());
            return items;
        }
        let text = match decode_chunk(chunk) {
            Ok(text) => text,
            Err(failure) => {
                self.finished = true;
                items.push(Err(failure));
                assert(items_view(items@) =~= seq![Err(FailureKind::EncodingInvalid)]);
                return items;
            },
        };
        let found = split_payloads(text);
        let ghost start = self@;
        let ghost all = payloads(text@);
        let mut i: usize = 0;
        assert(all.take(0) =~= Seq::empty());
        assert(items_view(items@) =~= Seq::empty());
        while i < found.len()
            invariant
                i <= found.len(),
                texts_view(found@) == all,
                (self@, items_view(items@)) == run_payloads(start, all.take(i as int)),
                forall|k: int| 0 <= k < items@.len() ==> reports_one_of(#[trigger] items@[k], all),
            decreases found.len() - i,
        {
            let ghost before_items = items@;
            let ghost before = self@;
            assert(all[i as int] == found@[i as int]@);
            assert(all.take(i + 1).drop_last() =~= all.take(i as int));
            assert(all.take(i + 1).last() == all[i as int]);
            match self.on_payload(found[i].as_str()) {
                Some(item) => {
                    items.push(item);
                    assert(items_view(items@) =~= items_view(before_items).push(item_view(item)));
                },
                None => {},
            }
            i += 1;
        }
        assert(all.take(i as int) =~= all);
        items
    }
}

} // verus!
