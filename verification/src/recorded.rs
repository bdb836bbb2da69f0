//! An inbound stream held in memory, and the pull that runs against it.

use std::collections::VecDeque;
use vstd::prelude::*;
use crate::iterator::{ChatEventIterator, PullStep, Received, ReceivedView};
use crate::model::{
    drain_from, drive_spec, lemma_drive_concludes, lemma_pulls_follow_stream_order, next_item, pull_spec,
    rest_items,
};
use crate::output::Output;

verus! {

/// A finite inbound stream whose items are known in advance. Once they are
/// used up it reports the end of the stream, again and again.
#[derive(Debug, PartialEq, Eq)]
pub struct RecordedStream {
    pending: VecDeque<Received>,
}

impl View for RecordedStream {
    type V = Seq<ReceivedView>;

    closed spec fn view(&self) -> Seq<ReceivedView> {
        self.pending.deep_view()
    }
}

impl RecordedStream {
    /// A stream that holds nothing.
    pub fn new() -> (stream: RecordedStream)
        ensures
            stream@ == Seq::<ReceivedView>::empty(),
    {
        let stream = RecordedStream { pending: VecDeque::new() };
        assert(stream@ =~= Seq::<ReceivedView>::empty());
        stream
    }

    /// A stream that gives `items`, first to last.
    pub fn from_items(items: Vec<Received>) -> (stream: RecordedStream)
        ensures
            stream@ == items.deep_view(),
    {
        let ghost all = items.deep_view();
        let mut items = items;
        let mut pending: VecDeque<Received> = VecDeque::new();
        while items.len() > 0
            invariant
                items.deep_view() + pending.deep_view() == all,
            decreases items.len(),
        {
            let ghost before = items.deep_view();
            let ghost tail = pending.deep_view();
            match items.pop() {
                Some(item) => {
                    pending.push_front(item);
                    assert(items.deep_view() + pending.deep_view() =~= before + tail);
                },
                None => {},
            }
        }
        let stream = RecordedStream { pending };
        assert(stream@ =~= all);
        stream
    }

    /// Adds `item` after the items that the stream holds.
    pub fn push(&mut self, item: Received)
        ensures
            final(self)@ == old(self)@.push(item@),
    {
        self.pending.push_back(item);
        assert(self@ =~= old(self)@.push(item@));
    }

    /// The number of items that are left.
    pub fn remaining(&self) -> (n: usize)
        ensures
            n == self@.len(),
    {
        self.pending.len()
    }

    /// Takes the next item off the stream.
    pub fn receive(&mut self) -> (item: Received)
        ensures
            item@ == next_item(old(self)@),
            final(self)@ == rest_items(old(self)@),
    {
        match self.pending.pop_front() {
            Some(item) => {
                assert(self@ =~= rest_items(old(self)@));
                item
            },
            None => Received::EndOfStream,
        }
    }
}

impl ChatEventIterator<RecordedStream> {
    /// One whole pull: the next output of the stream, or the signal that
    /// ends the iteration. Events that are not surfaced are passed over
    /// without returning to the caller.
    pub fn pull(&mut self) -> (step: PullStep)
        ensures
            final(self)@.state == pull_spec(old(self)@.state, old(self)@.handle@).state,
            final(self)@.handle@ == pull_spec(old(self)@.state, old(self)@.handle@).rest,
            step@ == pull_spec(old(self)@.state, old(self)@.handle@).step,
    {
        let first = self.begin_pull();
        match first {
            PullStep::Receive => {},
            _ => {
                return first;
            },
        }
        loop
            invariant
                self@.state is Pulling,
                old(self)@.state is Idle,
                drive_spec(self@.handle@) == drive_spec(old(self)@.handle@),
            decreases self@.handle@.len(),
        {
            let item = self.handle_mut().receive();
            let step = self.on_received(item);
            match step {
                PullStep::Receive => {},
                _ => {
                    return step;
                },
            }
        }
    }

    /// Pulls until a pull gives no output. Returns the outputs in the order
    /// of the pulls, and the answer of the last pull.
    pub fn drain(&mut self) -> (transcript: (Vec<Output>, PullStep))
        ensures
            transcript.0.deep_view() == drain_from(old(self)@.state, old(self)@.handle@).outputs,
            transcript.1@ == drain_from(old(self)@.state, old(self)@.handle@).end.step,
            final(self)@.state == drain_from(old(self)@.state, old(self)@.handle@).end.state,
            final(self)@.handle@ == drain_from(old(self)@.state, old(self)@.handle@).end.rest,
    {
        let mut outputs: Vec<Output> = Vec::new();
        let ghost all = drain_from(self@.state, self@.handle@);
        assert(outputs.deep_view() =~= Seq::empty());
        loop
            invariant
                all == drain_from(old(self)@.state, old(self)@.handle@),
                all.outputs == outputs.deep_view() + drain_from(self@.state, self@.handle@).outputs,
                all.end == drain_from(self@.state, self@.handle@).end,
            decreases self@.handle@.len(),
        {
            proof {
                lemma_pulls_follow_stream_order(self@.handle@);
                lemma_drive_concludes(self@.handle@);
            }
            let ghost before = outputs.deep_view();
            let step = self.pull();
            match step {
                PullStep::Item(out) => {
                    outputs.push(out);
                    assert(outputs.deep_view() =~= before + seq![out@]);
                    assert(all.outputs =~= outputs.deep_view() + drain_from(
                        self@.state,
                        self@.handle@,
                    ).outputs);
                },
                _ => {
                    assert(all.outputs =~= outputs.deep_view());
                    return (outputs, step);
                },
            }
        }
    }
}

} // verus!
