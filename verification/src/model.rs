//! A whole pull, as a function of the iterator's state and of the items that
//! the inbound stream is going to give.

use vstd::prelude::*;
use crate::decoder::{decode_spec, DecodedView};
use crate::errors::StreamErrorView;
use crate::events::InboundEventView;
use crate::iterator::{
    abandon_spec, begin_spec, receive_spec, terminal_signal, PullStateView, PullStepView, ReceivedView,
};
use crate::output::OutputView;

verus! {

/// What the next receive gives on a stream that holds `items`: the first of
/// them, or the end of the stream when none is left.
pub open spec fn next_item(items: Seq<ReceivedView>) -> ReceivedView {
    if items.len() > 0 {
        items[0]
    } else {
        ReceivedView::EndOfStream
    }
}

/// What the stream holds after one receive.
pub open spec fn rest_items(items: Seq<ReceivedView>) -> Seq<ReceivedView> {
    if items.len() > 0 {
        items.skip(1)
    } else {
        items
    }
}

/// How a pull ends.
pub struct PullOutcome {
    /// The state in which the pull leaves the iterator.
    pub state: PullStateView,
    /// The items that the pull leaves on the stream.
    pub rest: Seq<ReceivedView>,
    /// The answer to the caller.
    pub step: PullStepView,
}

/// A pull in flight: it receives item after item until one ends it.
pub open spec fn drive_spec(items: Seq<ReceivedView>) -> PullOutcome
    decreases items.len(),
{
    let (state, step) = receive_spec(PullStateView::Pulling, next_item(items));
    if step is Receive && items.len() > 0 {
        drive_spec(rest_items(items))
    } else {
        PullOutcome { state, rest: rest_items(items), step }
    }
}

/// A pull from its start: it receives nothing unless the iterator was idle.
pub open spec fn pull_spec(state: PullStateView, items: Seq<ReceivedView>) -> PullOutcome {
    let (begun, step) = begin_spec(state);
    if step is Receive {
        drive_spec(items)
    } else {
        PullOutcome { state: begun, rest: items, step }
    }
}

/// A whole iteration.
pub struct Transcript {
    /// The outputs that the pulls gave, in the order of the pulls.
    pub outputs: Seq<OutputView>,
    /// How the pull that gave no output ended.
    pub end: PullOutcome,
}

/// The iteration of an idle iterator to its end: the outputs of the events
/// that are surfaced, in the order in which the stream gives those events,
/// up to the first item that ends the iteration.
pub open spec fn drain_spec(items: Seq<ReceivedView>) -> Transcript
    decreases items.len(),
{
    let (state, step) = receive_spec(PullStateView::Pulling, next_item(items));
    if items.len() > 0 && step is Receive {
        drain_spec(rest_items(items))
    } else if items.len() > 0 && step is Item {
        let then = drain_spec(rest_items(items));
        Transcript { outputs: seq![step->Item_0] + then.outputs, end: then.end }
    } else {
        Transcript { outputs: Seq::empty(), end: PullOutcome { state, rest: rest_items(items), step } }
    }
}

/// Pulling until a pull gives no output, from any state: an iterator that
/// is not idle gives no output at all.
pub open spec fn drain_from(state: PullStateView, items: Seq<ReceivedView>) -> Transcript {
    if state is Idle {
        drain_spec(items)
    } else {
        Transcript { outputs: Seq::empty(), end: pull_spec(state, items) }
    }
}

/// The number of items that a pull takes off the stream.
pub open spec fn consumed(state: PullStateView, items: Seq<ReceivedView>) -> nat {
    (items.len() - pull_spec(state, items).rest.len()) as nat
}

/// An item that a pull passes over: an event that is not surfaced.
pub open spec fn is_skipped(item: ReceivedView) -> bool {
    item matches ReceivedView::Event(event) && decode_spec(event) == Ok::<DecodedView, StreamErrorView>(
        DecodedView::Skip,
    )
}

/// A pull in flight always ends, and with an answer for the caller: an
/// output, exhaustion or a failure. The state it leaves goes with the answer,
/// and what it leaves on the stream is what followed the items it took.
pub proof fn lemma_drive_concludes(items: Seq<ReceivedView>)
    ensures
        ({
            let o = drive_spec(items);
            &&& o.step is Item || o.step is Exhausted || o.step is Failed
            &&& o.step is Item ==> o.state is Idle && o.rest.len() < items.len()
            &&& o.step is Exhausted ==> o.state is Completed
            &&& o.step matches PullStepView::Failed(error) ==> o.state == PullStateView::Failed(error)
            &&& o.rest.len() <= items.len()
            &&& o.rest == items.skip(items.len() - o.rest.len())
        }),
    decreases items.len(),
{
    let (state, step) = receive_spec(PullStateView::Pulling, next_item(items));
    if step is Receive && items.len() > 0 {
        let rest = rest_items(items);
        lemma_drive_concludes(rest);
        let o = drive_spec(rest);
        assert(rest.skip(rest.len() - o.rest.len()) =~= items.skip(items.len() - o.rest.len()));
    } else {
        assert(rest_items(items) =~= items.skip(items.len() - rest_items(items).len()));
    }
}

/// A pull never leaves its caller without an answer, whatever the stream
/// holds. It is refused only if another pull is in flight, and then it
/// changes nothing.
pub proof fn lemma_pull_concludes(state: PullStateView, items: Seq<ReceivedView>)
    ensures
        !(pull_spec(state, items).step is Receive),
        pull_spec(state, items).step is Rejected <==> state is Pulling,
        state is Pulling ==> pull_spec(state, items) == (PullOutcome {
            state,
            rest: items,
            step: PullStepView::Rejected,
        }),
{
    lemma_drive_concludes(items);
}

/// The state in which a pull leaves the iterator goes with its answer: idle
/// after an output, completed after exhaustion, failed after a failure, and
/// with the cause that the caller was given.
pub proof fn lemma_pull_state_matches_answer(state: PullStateView, items: Seq<ReceivedView>)
    ensures
        ({
            let o = pull_spec(state, items);
            &&& o.step is Item ==> o.state is Idle
            &&& o.step is Exhausted ==> o.state is Completed
            &&& o.step matches PullStepView::Failed(error) ==> o.state == PullStateView::Failed(error)
        }),
{
    lemma_drive_concludes(items);
}

/// No step leaves a terminal state: beginning a pull repeats the terminal
/// signal, an item is refused, and there is nothing to give up.
pub proof fn lemma_no_step_leaves_terminal_state(state: PullStateView, item: ReceivedView)
    requires
        state.is_terminal(),
    ensures
        begin_spec(state) == (state, terminal_signal(state)),
        receive_spec(state, item) == (state, PullStepView::Rejected),
        abandon_spec(state) == state,
{
}

/// A pull on a terminal iterator repeats the terminal signal, takes nothing
/// off the stream, and leaves the state as it is.
pub proof fn lemma_terminal_state_repeats_signal(state: PullStateView, items: Seq<ReceivedView>)
    requires
        state.is_terminal(),
    ensures
        pull_spec(state, items) == (PullOutcome { state, rest: items, step: terminal_signal(state) }),
{
}

/// Termination is idempotent: once a pull has answered with exhaustion or
/// with a failure, every later pull gives that same answer, whatever the
/// stream would still give.
pub proof fn lemma_termination_is_idempotent(
    state: PullStateView,
    items: Seq<ReceivedView>,
    later: Seq<ReceivedView>,
)
    requires
        pull_spec(state, items).step is Exhausted || pull_spec(state, items).step is Failed,
    ensures
        pull_spec(pull_spec(state, items).state, later) == (PullOutcome {
            state: pull_spec(state, items).state,
            rest: later,
            step: pull_spec(state, items).step,
        }),
{
    lemma_drive_concludes(items);
}

/// Events that are not surfaced are transparent: a pull on a stream that
/// starts with any number of them ends as the pull on the stream without
/// them, with the same answer, state and remaining items.
pub proof fn lemma_skipped_events_are_transparent(skipped: Seq<ReceivedView>, items: Seq<ReceivedView>)
    requires
        forall|i: int| 0 <= i < skipped.len() ==> is_skipped(#[trigger] skipped[i]),
    ensures
        pull_spec(PullStateView::Idle, skipped + items) == pull_spec(PullStateView::Idle, items),
    decreases skipped.len(),
{
    if skipped.len() == 0 {
        assert(skipped + items =~= items);
    } else {
        let all = skipped + items;
        assert(is_skipped(skipped[0]));
        assert(next_item(all) == skipped[0]);
        assert(rest_items(all) =~= skipped.skip(1) + items);
        lemma_skipped_events_are_transparent(skipped.skip(1), items);
    }
}

/// A pull stops at the first item that is not passed over: it takes that
/// item and the events before it, answers as that item demands, and leaves
/// what follows on the stream.
pub proof fn lemma_pull_stops_at_first_surfaced_item(
    skipped: Seq<ReceivedView>,
    item: ReceivedView,
    rest: Seq<ReceivedView>,
)
    requires
        forall|i: int| 0 <= i < skipped.len() ==> is_skipped(#[trigger] skipped[i]),
        !is_skipped(item),
    ensures
        pull_spec(PullStateView::Idle, skipped + seq![item] + rest) == (PullOutcome {
            state: receive_spec(PullStateView::Pulling, item).0,
            rest,
            step: receive_spec(PullStateView::Pulling, item).1,
        }),
        consumed(PullStateView::Idle, skipped + seq![item] + rest) == skipped.len() + 1,
{
    let tail = seq![item] + rest;
    assert(skipped + seq![item] + rest =~= skipped + tail);
    lemma_skipped_events_are_transparent(skipped, tail);
    assert(next_item(tail) == item);
    assert(rest_items(tail) =~= rest);
}

/// A metadata event without one of its identifiers fails the pull that
/// meets it, and the iterator stays failed: every later pull repeats the
/// failure and takes nothing off the stream.
pub proof fn lemma_malformed_metadata_fails_for_good(
    conversation_id: Option<Seq<char>>,
    user_message_id: Option<Seq<char>>,
    system_message_id: Option<Seq<char>>,
    items: Seq<ReceivedView>,
    later: Seq<ReceivedView>,
)
    requires
        conversation_id is None || user_message_id is None || system_message_id is None,
    ensures
        ({
            let event = InboundEventView::Metadata { conversation_id, user_message_id, system_message_id };
            let failed = PullStateView::Failed(StreamErrorView::MalformedMetadata);
            let signal = PullStepView::Failed(StreamErrorView::MalformedMetadata);
            &&& pull_spec(PullStateView::Idle, seq![ReceivedView::Event(event)] + items) == (PullOutcome {
                state: failed,
                rest: items,
                step: signal,
            })
            &&& pull_spec(failed, later) == (PullOutcome { state: failed, rest: later, step: signal })
        }),
{
    let event = InboundEventView::Metadata { conversation_id, user_message_id, system_message_id };
    let all = seq![ReceivedView::Event(event)] + items;
    assert(next_item(all) == ReceivedView::Event(event));
    assert(rest_items(all) =~= items);
}

/// No event is read twice: a pull takes a prefix of the stream, and the
/// pull after it starts where the first one stopped. A pull that gave an
/// output took at least the event that the output came from.
pub proof fn lemma_pulls_read_disjoint_events(state: PullStateView, items: Seq<ReceivedView>)
    ensures
        ({
            let first = pull_spec(state, items);
            let second = pull_spec(first.state, first.rest);
            let k1 = consumed(state, items);
            let k2 = consumed(first.state, first.rest);
            &&& k1 + k2 <= items.len()
            &&& first.rest == items.skip(k1 as int)
            &&& second.rest == items.skip((k1 + k2) as int)
            &&& first.step is Item ==> k1 >= 1
            &&& second.step is Item ==> k2 >= 1
        }),
{
    lemma_drive_concludes(items);
    let first = pull_spec(state, items);
    lemma_drive_concludes(first.rest);
    let second = pull_spec(first.state, first.rest);
    let k1 = consumed(state, items);
    let k2 = consumed(first.state, first.rest);
    assert(first.rest =~= items.skip(k1 as int));
    assert(second.rest =~= first.rest.skip(k2 as int));
    assert(first.rest.skip(k2 as int) =~= items.skip((k1 + k2) as int));
}

/// Outputs come in the order of the stream: the first pull of an iteration
/// gives the first output of its transcript, and the pulls on what the first
/// left give the rest; a pull without output ends the transcript.
pub proof fn lemma_pulls_follow_stream_order(items: Seq<ReceivedView>)
    ensures
        ({
            let first = pull_spec(PullStateView::Idle, items);
            match first.step {
                PullStepView::Item(out) => drain_spec(items) == (Transcript {
                    outputs: seq![out] + drain_spec(first.rest).outputs,
                    end: drain_spec(first.rest).end,
                }),
                _ => drain_spec(items) == (Transcript { outputs: Seq::empty(), end: first }),
            }
        }),
    decreases items.len(),
{
    let (state, step) = receive_spec(PullStateView::Pulling, next_item(items));
    if items.len() > 0 && step is Receive {
        lemma_pulls_follow_stream_order(rest_items(items));
    }
}

/// An iteration ends with exhaustion or with a failure, never with an
/// output left out, and it leaves the iterator in the terminal state that
/// goes with its end.
pub proof fn lemma_drain_ends_terminal(items: Seq<ReceivedView>)
    ensures
        ({
            let end = drain_spec(items).end;
            &&& end.step is Exhausted || end.step is Failed
            &&& end.state.is_terminal()
            &&& end.step == terminal_signal(end.state)
        }),
    decreases items.len(),
{
    let (state, step) = receive_spec(PullStateView::Pulling, next_item(items));
    if items.len() > 0 && (step is Receive || step is Item) {
        lemma_drain_ends_terminal(rest_items(items));
    }
}

/// At most one pull is in flight: a pull is admitted on an idle iterator
/// only, so while one is in flight a second is refused; and an item is taken
/// by the pull in flight only, so handed over without one it is refused. A
/// refused step leaves the iterator as it was.
pub proof fn lemma_overlapping_steps_are_rejected(state: PullStateView, item: ReceivedView)
    ensures
        begin_spec(state).1 is Receive <==> state is Idle,
        begin_spec(state).1 is Rejected <==> state is Pulling,
        begin_spec(begin_spec(PullStateView::Idle).0).1 is Rejected,
        receive_spec(state, item).1 is Rejected <==> !(state is Pulling),
        begin_spec(state).1 is Rejected ==> begin_spec(state).0 == state,
        receive_spec(state, item).1 is Rejected ==> receive_spec(state, item).0 == state,
{
}

} // verus!
