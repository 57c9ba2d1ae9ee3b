//! What holds of every stream: theorems about the accumulator and the
//! decoder, stated over their models.

use crate::accumulator::{
    emitted, finished_call, next_slot, parsed_arguments, run_events, ToolCallView,
};
use crate::choice::{ChoiceView, FailureKind};
use crate::decode::event_of_payload;
use crate::decoder::{payload_step, run_payloads, DecoderView};
use crate::event::{ContentDeltaView, ContentView, EventView};
use crate::json::Json;
use vstd::prelude::*;

verus! {

/// The text fragments of some events as output items, in order.
pub open spec fn text_items(events: Seq<EventView>) -> Seq<Result<ChoiceView, FailureKind>>
    decreases events.len(),
{
    if events.len() == 0 {
        Seq::empty()
    } else {
        let before = text_items(events.drop_last());
        match events.last().text_fragment() {
            Some(text) => before.push(Ok(ChoiceView::Message(text))),
            None => before,
        }
    }
}

/// The argument fragments of some events, joined in order.
pub open spec fn argument_text(events: Seq<EventView>) -> Seq<char>
    decreases events.len(),
{
    if events.len() == 0 {
        Seq::empty()
    } else {
        let before = argument_text(events.drop_last());
        match events.last().argument_fragment() {
            Some(fragment) => before + fragment,
            None => before,
        }
    }
}

/// Whether one of the events stops the message.
pub open spec fn has_stop(events: Seq<EventView>) -> bool {
    exists|i: int| 0 <= i < events.len() && events[i] is MessageStop
}

/// The events up to and including the first that stops the message; all of
/// them where none does.
pub open spec fn until_stop(events: Seq<EventView>) -> Seq<EventView>
    decreases events.len(),
{
    if events.len() == 0 {
        Seq::empty()
    } else if has_stop(events.drop_last()) {
        until_stop(events.drop_last())
    } else {
        until_stop(events.drop_last()).push(events.last())
    }
}

/// The events that payloads describe, for payloads that each describe one.
pub open spec fn events_of(payloads: Seq<Seq<char>>) -> Seq<EventView> {
    payloads.map_values(|payload: Seq<char>| event_of_payload(payload)->Some_0)
}

/// The events that deliver the given argument fragments to block `index`.
pub open spec fn argument_deltas(index: usize, fragments: Seq<Seq<char>>) -> Seq<EventView> {
    fragments.map_values(
        |fragment: Seq<char>|
            EventView::ContentBlockDelta {
                index,
                delta: ContentDeltaView::InputJsonDelta { partial_json: fragment },
            },
    )
}

/// The texts of a run, joined in order.
pub open spec fn joined(fragments: Seq<Seq<char>>) -> Seq<char>
    decreases fragments.len(),
{
    if fragments.len() == 0 {
        Seq::empty()
    } else {
        joined(fragments.drop_last()) + fragments.last()
    }
}

/// Whether a tool call with this name and id is open at the end of the
/// events: it was opened at `at`, no block was opened for a tool or stopped
/// since, and `input_json` is what the argument fragments since add up to.
pub open spec fn opened_at(events: Seq<EventView>, at: int, call: ToolCallView) -> bool {
    &&& 0 <= at < events.len()
    &&& events[at] matches EventView::ContentBlockStart {
        content_block: ContentView::ToolUse { id, name },
        ..
    }
    &&& id == call.id
    &&& name == call.name
    &&& forall|k: int|
        at < k < events.len() ==> !(#[trigger] events[k]).opens_tool_call() && !(events[k]
            is ContentBlockStop)
    &&& call.input_json == argument_text(events.skip(at + 1))
}

/// Running two stretches of events one after the other is running them as
/// one.
pub proof fn lemma_run_events_concat(
    slot: Option<ToolCallView>,
    first: Seq<EventView>,
    second: Seq<EventView>,
)
    ensures
        run_events(slot, first + second) == ({
            let (middle, head) = run_events(slot, first);
            let (end, tail) = run_events(middle, second);
            (end, head + tail)
        }),
    decreases second.len(),
{
    let (middle, head) = run_events(slot, first);
    if second.len() == 0 {
        assert(first + second =~= first);
        assert(head + Seq::empty() =~= head);
    } else {
        assert((first + second).drop_last() =~= first + second.drop_last());
        assert((first + second).last() == second.last());
        lemma_run_events_concat(slot, first, second.drop_last());
        let (before, items) = run_events(middle, second.drop_last());
        match emitted(before, second.last()) {
            Some(item) => {
                assert((head + items).push(item) =~= head + items.push(item));
            },
            None => {},
        }
    }
}

/// A stream without tool-use blocks puts out its text deltas, in the order
/// of arrival, and nothing else.
pub proof fn lemma_text_only_events(events: Seq<EventView>)
    requires
        forall|i: int| 0 <= i < events.len() ==> !(#[trigger] events[i]).opens_tool_call(),
    ensures
        run_events(None, events) == (None::<ToolCallView>, text_items(events)),
    decreases events.len(),
{
    if events.len() > 0 {
        let before = events.drop_last();
        assert forall|i: int| 0 <= i < before.len() implies !(#[trigger] before[i]).opens_tool_call() by {
            assert(before[i] == events[i]);
        }
        lemma_text_only_events(before);
        assert(!events[events.len() - 1].opens_tool_call());
    }
}

/// A tool-use block start, then argument deltas, then a block stop put out
/// exactly one item, whatever went before: the tool call with the name and
/// id of the start, and as arguments the JSON that the joined deltas spell;
/// or one failure where they spell none.
pub proof fn lemma_tool_call_block(
    slot: Option<ToolCallView>,
    index: usize,
    id: Seq<char>,
    name: Seq<char>,
    fragments: Seq<Seq<char>>,
)
    ensures
        run_events(
            slot,
            seq![
                EventView::ContentBlockStart {
                    index,
                    content_block: ContentView::ToolUse { id, name },
                },
            ] + argument_deltas(index, fragments) + seq![EventView::ContentBlockStop { index }],
        ) == (
            None::<ToolCallView>,
            seq![finished_call(ToolCallView { name, id, input_json: joined(fragments) })],
        ),
{
    let start = EventView::ContentBlockStart {
        index,
        content_block: ContentView::ToolUse { id, name },
    };
    let stop = EventView::ContentBlockStop { index };
    let opened = Some(ToolCallView { name, id, input_json: Seq::empty() });
    assert(seq![start].drop_last() =~= Seq::empty());
    assert(run_events(slot, seq![start]) == (opened, Seq::<Result<ChoiceView, FailureKind>>::empty()))
        by {
        reveal_with_fuel(run_events, 2);
    }
    lemma_argument_deltas(ToolCallView { name, id, input_json: Seq::empty() }, index, fragments);
    let filled = Some(ToolCallView { name, id, input_json: joined(fragments) });
    assert(Seq::<char>::empty() + joined(fragments) =~= joined(fragments));
    lemma_run_events_concat(slot, seq![start], argument_deltas(index, fragments));
    assert(seq![stop].drop_last() =~= Seq::empty());
    assert(run_events(filled, seq![stop]) == (
        None::<ToolCallView>,
        seq![finished_call(ToolCallView { name, id, input_json: joined(fragments) })],
    )) by {
        reveal_with_fuel(run_events, 2);
        assert(Seq::<Result<ChoiceView, FailureKind>>::empty().push(
            finished_call(ToolCallView { name, id, input_json: joined(fragments) }),
        ) =~= seq![finished_call(ToolCallView { name, id, input_json: joined(fragments) })]);
    }
    lemma_run_events_concat(slot, seq![start] + argument_deltas(index, fragments), seq![stop]);
    assert(Seq::<Result<ChoiceView, FailureKind>>::empty() + Seq::empty() + seq![
        finished_call(ToolCallView { name, id, input_json: joined(fragments) }),
    ] =~= seq![finished_call(ToolCallView { name, id, input_json: joined(fragments) })]);
}

/// Argument deltas extend an open tool call and put out nothing.
pub proof fn lemma_argument_deltas(call: ToolCallView, index: usize, fragments: Seq<Seq<char>>)
    ensures
        run_events(Some(call), argument_deltas(index, fragments)) == (
            Some(ToolCallView { input_json: call.input_json + joined(fragments), ..call }),
            Seq::<Result<ChoiceView, FailureKind>>::empty(),
        ),
    decreases fragments.len(),
{
    let deltas = argument_deltas(index, fragments);
    if fragments.len() == 0 {
        assert(call.input_json + joined(fragments) =~= call.input_json);
    } else {
        assert(deltas.drop_last() =~= argument_deltas(index, fragments.drop_last()));
        lemma_argument_deltas(call, index, fragments.drop_last());
        assert(call.input_json + joined(fragments.drop_last()) + fragments.last()
            =~= call.input_json + joined(fragments));
    }
}

/// A tool-use block that is stopped before any argument arrives puts out a
/// tool call whose arguments are the empty object, and no failure.
pub proof fn lemma_empty_tool_call(
    slot: Option<ToolCallView>,
    index: usize,
    id: Seq<char>,
    name: Seq<char>,
)
    ensures
        run_events(
            slot,
            seq![
                EventView::ContentBlockStart {
                    index,
                    content_block: ContentView::ToolUse { id, name },
                },
                EventView::ContentBlockStop { index },
            ],
        ) == (
            None::<ToolCallView>,
            seq![Ok::<ChoiceView, FailureKind>(ChoiceView::ToolCall(name, id, Json::empty_object()))],
        ),
{
    let start = EventView::ContentBlockStart {
        index,
        content_block: ContentView::ToolUse { id, name },
    };
    let stop = EventView::ContentBlockStop { index };
    lemma_tool_call_block(slot, index, id, name, Seq::empty());
    assert(argument_deltas(index, Seq::empty()) =~= Seq::empty());
    assert(seq![start] + argument_deltas(index, Seq::empty()) + seq![stop] =~= seq![start, stop]);
}

/// While a tool call is open, the events say where it was opened and what
/// it has gathered since.
pub proof fn lemma_open_call(events: Seq<EventView>)
    ensures
        run_events(None, events).0 matches Some(call) ==> exists|at: int| #[trigger]
            opened_at(events, at, call),
    decreases events.len(),
{
    if events.len() > 0 {
        let before = events.drop_last();
        let last = events.last();
        let n = events.len() - 1;
        lemma_open_call(before);
        let slot = run_events(None, before).0;
        match next_slot(slot, last) {
            None => {},
            Some(call) => {
                if last.opens_tool_call() {
                    assert(events.skip(n + 1) =~= Seq::empty());
                    assert(opened_at(events, n, call));
                } else {
                    let earlier = slot->Some_0;
                    let at = choose|at: int| opened_at(before, at, earlier);
                    assert(before[at] == events[at]);
                    assert forall|k: int| at < k < events.len() implies !(
                    #[trigger] events[k]).opens_tool_call() && !(events[k]
                        is ContentBlockStop) by {
                        if k < n {
                            assert(before[k] == events[k]);
                        }
                    }
                    assert(events.skip(at + 1).drop_last() =~= before.skip(at + 1));
                    assert(events.skip(at + 1).last() == last);
                    assert(opened_at(events, at, call));
                }
            },
        }
    }
}

/// A tool call comes out only where a block stop closes a tool-use block:
/// if the event at `at` puts out a tool call, that event is a block stop, a
/// tool-use block start with the call's name and id stands before it with no
/// other such start and no stop in between, and the call's arguments are the
/// JSON that the argument deltas in between spell when joined.
pub proof fn lemma_tool_call_has_block(
    events: Seq<EventView>,
    at: int,
    name: Seq<char>,
    id: Seq<char>,
    arguments: Json,
)
    requires
        0 <= at < events.len(),
        emitted(run_events(None, events.take(at)).0, events[at]) == Some(
            Ok::<ChoiceView, FailureKind>(ChoiceView::ToolCall(name, id, arguments)),
        ),
    ensures
        events[at] is ContentBlockStop,
        exists|from: int|
            {
                &&& #[trigger] opened_at(
                    events.take(at),
                    from,
                    ToolCallView {
                        name,
                        id,
                        input_json: argument_text(events.take(at).skip(from + 1)),
                    },
                )
                &&& parsed_arguments(argument_text(events.take(at).skip(from + 1))) == Some(
                    arguments,
                )
            },
{
    let before = events.take(at);
    lemma_open_call(before);
    let slot = run_events(None, before).0;
    let call = slot->Some_0;
    let from = choose|from: int| opened_at(before, from, call);
    assert(opened_at(
        before,
        from,
        ToolCallView { name, id, input_json: argument_text(before.skip(from + 1)) },
    ));
}

/// Running two stretches of payloads one after the other is running them as
/// one.
pub proof fn lemma_run_payloads_concat(
    state: DecoderView,
    first: Seq<Seq<char>>,
    second: Seq<Seq<char>>,
)
    ensures
        run_payloads(state, first + second) == ({
            let (middle, head) = run_payloads(state, first);
            let (end, tail) = run_payloads(middle, second);
            (end, head + tail)
        }),
    decreases second.len(),
{
    let (middle, head) = run_payloads(state, first);
    if second.len() == 0 {
        assert(first + second =~= first);
        assert(head + Seq::empty() =~= head);
    } else {
        assert((first + second).drop_last() =~= first + second.drop_last());
        assert((first + second).last() == second.last());
        lemma_run_payloads_concat(state, first, second.drop_last());
        let (before, items) = run_payloads(middle, second.drop_last());
        match payload_step(before, second.last()).1 {
            Some(item) => {
                assert((head + items).push(item) =~= head + items.push(item));
            },
            None => {},
        }
    }
}

/// A malformed payload costs exactly one item: in a stream that has not
/// ended it puts out one failure, and the payloads before and after it put
/// out what they put out without it.
pub proof fn lemma_malformed_payload_isolated(
    state: DecoderView,
    before: Seq<Seq<char>>,
    bad: Seq<char>,
    after: Seq<Seq<char>>,
)
    requires
        event_of_payload(bad) is None,
        !run_payloads(state, before).0.finished,
    ensures
        ({
            let (middle, head) = run_payloads(state, before);
            let (end, tail) = run_payloads(middle, after);
            &&& run_payloads(state, before + after) == (end, head + tail)
            &&& run_payloads(state, before + seq![bad] + after) == (
                end,
                head + seq![Err::<ChoiceView, FailureKind>(FailureKind::JsonMalformed)] + tail,
            )
        }),
{
    let (middle, head) = run_payloads(state, before);
    lemma_run_payloads_concat(state, before, after);
    lemma_run_payloads_concat(state, before, seq![bad]);
    assert(seq![bad].drop_last() =~= Seq::empty());
    assert(run_payloads(middle, seq![bad]) == (
        middle,
        seq![Err::<ChoiceView, FailureKind>(FailureKind::JsonMalformed)],
    )) by {
        reveal_with_fuel(run_payloads, 2);
        assert(Seq::<Result<ChoiceView, FailureKind>>::empty().push(
            Err(FailureKind::JsonMalformed),
        ) =~= seq![Err::<ChoiceView, FailureKind>(FailureKind::JsonMalformed)]);
    }
    lemma_run_payloads_concat(state, before + seq![bad], after);
}

/// Once the stream has ended, payloads change nothing and put out nothing.
pub proof fn lemma_finished_is_final(state: DecoderView, payloads: Seq<Seq<char>>)
    requires
        state.finished,
    ensures
        run_payloads(state, payloads) == (state, Seq::<Result<ChoiceView, FailureKind>>::empty()),
    decreases payloads.len(),
{
    if payloads.len() > 0 {
        lemma_finished_is_final(state, payloads.drop_last());
    }
}

/// Payloads that each describe an event put out what the accumulator puts
/// out for those events, up to the one that stops the message.
pub proof fn lemma_valid_payloads(slot: Option<ToolCallView>, payloads: Seq<Seq<char>>)
    requires
        forall|i: int| 0 <= i < payloads.len() ==> event_of_payload(#[trigger] payloads[i]) is Some,
    ensures
        run_payloads(DecoderView { slot, finished: false }, payloads) == (
            DecoderView {
                slot: run_events(slot, until_stop(events_of(payloads))).0,
                finished: has_stop(events_of(payloads)),
            },
            run_events(slot, until_stop(events_of(payloads))).1,
        ),
    decreases payloads.len(),
{
    let events = events_of(payloads);
    if payloads.len() == 0 {
        assert(!has_stop(events));
    } else {
        let before = payloads.drop_last();
        let n = payloads.len() - 1;
        assert forall|i: int| 0 <= i < before.len() implies event_of_payload(
            #[trigger] before[i],
        ) is Some by {
            assert(before[i] == payloads[i]);
        }
        lemma_valid_payloads(slot, before);
        assert(events.drop_last() =~= events_of(before));
        assert(events.last() == event_of_payload(payloads[n])->Some_0);
        if has_stop(events_of(before)) {
            let i = choose|i: int|
                0 <= i < events_of(before).len() && events_of(before)[i] is MessageStop;
            assert(events[i] is MessageStop);
        } else {
            if events.last() is MessageStop {
                assert(events[n] is MessageStop);
            } else {
                if has_stop(events) {
                    let i = choose|i: int| 0 <= i < events.len() && events[i] is MessageStop;
                    assert(events_of(before)[i] is MessageStop);
                }
            }
            let kept = until_stop(events_of(before));
            assert(kept.push(events.last()).drop_last() =~= kept);
        }
    }
}

/// A stream of well-formed payloads without tool-use blocks puts out the
/// texts of its text deltas, in the order of arrival, and nothing else.
pub proof fn lemma_text_only_stream(payloads: Seq<Seq<char>>)
    requires
        forall|i: int| 0 <= i < payloads.len() ==> event_of_payload(#[trigger] payloads[i]) is Some,
        forall|i: int|
            0 <= i < payloads.len() ==> !(event_of_payload(
                #[trigger] payloads[i],
            )->Some_0).opens_tool_call(),
    ensures
        run_payloads(DecoderView::start(), payloads).1 == text_items(
            until_stop(events_of(payloads)),
        ),
{
    let events = events_of(payloads);
    lemma_valid_payloads(None, payloads);
    lemma_until_stop_is_prefix(events);
    let kept = until_stop(events);
    assert forall|i: int| 0 <= i < kept.len() implies !(#[trigger] kept[i]).opens_tool_call() by {
        assert(kept[i] == events[i]);
        assert(events[i] == event_of_payload(payloads[i])->Some_0);
    }
    lemma_text_only_events(kept);
}

/// The events up to the first stop are the first so many of the events.
pub proof fn lemma_until_stop_is_prefix(events: Seq<EventView>)
    ensures
        until_stop(events).len() <= events.len(),
        until_stop(events) == events.take(until_stop(events).len() as int),
        !has_stop(events) ==> until_stop(events) == events,
    decreases events.len(),
{
    if events.len() > 0 {
        let before = events.drop_last();
        lemma_until_stop_is_prefix(before);
        let kept = until_stop(before);
        if has_stop(before) {
            assert(before.take(kept.len() as int) =~= events.take(kept.len() as int));
            let i = choose|i: int| 0 <= i < before.len() && before[i] is MessageStop;
            assert(events[i] is MessageStop);
        } else {
            assert(kept.push(events.last()) =~= events);
            assert(events.take(events.len() as int) =~= events);
        }
    } else {
        assert(events.take(0) =~= events);
    }
}

} // verus!
