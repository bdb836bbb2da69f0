//! The pull-based cursor over the inbound stream of one chat call.
//!
//! Receiving from the stream is the driver's work; what to do with each
//! received item is decided here. A pull starts with `begin_pull`. While the
//! answer is [`PullStep::Receive`], the driver receives one item from the
//! stream and hands it to `on_received`. Any other answer ends the pull.

use vstd::prelude::*;
use crate::decoder::{decode_spec, Decoded, DecodedView, OutputDecoder};
use crate::errors::{StreamError, StreamErrorView};
use crate::events::{InboundEvent, InboundEventView};
use crate::output::{Output, OutputView};

verus! {

/// What one receive on the inbound stream gave.
#[derive(Debug, PartialEq, Eq)]
pub enum Received {
    /// The next event of the stream.
    Event(InboundEvent),
    /// The stream has no more events.
    EndOfStream,
    /// The transport or the protocol failed.
    Error { cause: String },
}

/// Mathematical value of a [`Received`].
pub enum ReceivedView {
    Event(InboundEventView),
    EndOfStream,
    Error { cause: Seq<char> },
}

impl View for Received {
    type V = ReceivedView;

    open spec fn view(&self) -> ReceivedView {
        match *self {
            Received::Event(event) => ReceivedView::Event(event@),
            Received::EndOfStream => ReceivedView::EndOfStream,
            Received::Error { cause } => ReceivedView::Error { cause: cause@ },
        }
    }
}

impl Clone for Received {
    fn clone(&self) -> (copy: Received)
        ensures
            copy == *self,
    {
        match self {
            Received::Event(event) => Received::Event(event.clone()),
            Received::EndOfStream => Received::EndOfStream,
            Received::Error { cause } => Received::Error { cause: cause.clone() },
        }
    }
}

impl DeepView for Received {
    type V = ReceivedView;

    open spec fn deep_view(&self) -> ReceivedView {
        self@
    }
}

/// Where an iterator stands between and during pulls.
#[derive(Debug, PartialEq, Eq)]
pub enum PullState {
    /// No pull is in flight and the stream may hold more.
    Idle,
    /// A pull is in flight.
    Pulling,
    /// The stream has ended normally.
    Completed,
    /// The stream has broken.
    Failed(StreamError),
}

/// Mathematical value of a [`PullState`].
pub enum PullStateView {
    Idle,
    Pulling,
    Completed,
    Failed(StreamErrorView),
}

impl View for PullState {
    type V = PullStateView;

    open spec fn view(&self) -> PullStateView {
        match *self {
            PullState::Idle => PullStateView::Idle,
            PullState::Pulling => PullStateView::Pulling,
            PullState::Completed => PullStateView::Completed,
            PullState::Failed(error) => PullStateView::Failed(error@),
        }
    }
}

impl Clone for PullState {
    fn clone(&self) -> (copy: PullState)
        ensures
            copy == *self,
    {
        match self {
            PullState::Idle => PullState::Idle,
            PullState::Pulling => PullState::Pulling,
            PullState::Completed => PullState::Completed,
            PullState::Failed(error) => PullState::Failed(error.clone()),
        }
    }
}

impl PullStateView {
    /// No transition leaves a terminal state.
    pub open spec fn is_terminal(self) -> bool {
        self is Completed || self is Failed
    }
}

/// The answer of the iterator to one step of a pull.
#[derive(Debug, PartialEq, Eq)]
pub enum PullStep {
    /// The pull goes on: receive the next inbound item and hand it over.
    Receive,
    /// The pull ends with this output.
    Item(Output),
    /// The pull ends: the stream is exhausted.
    Exhausted,
    /// The pull ends: the stream is broken.
    Failed(StreamError),
    /// The step was refused and changed nothing: a pull was begun while
    /// another was in flight, or an item was handed over while none was.
    Rejected,
}

/// Mathematical value of a [`PullStep`].
pub enum PullStepView {
    Receive,
    Item(OutputView),
    Exhausted,
    Failed(StreamErrorView),
    Rejected,
}

impl View for PullStep {
    type V = PullStepView;

    open spec fn view(&self) -> PullStepView {
        match *self {
            PullStep::Receive => PullStepView::Receive,
            PullStep::Item(out) => PullStepView::Item(out@),
            PullStep::Exhausted => PullStepView::Exhausted,
            PullStep::Failed(error) => PullStepView::Failed(error@),
            PullStep::Rejected => PullStepView::Rejected,
        }
    }
}

impl Clone for PullStep {
    fn clone(&self) -> (copy: PullStep)
        ensures
            copy == *self,
    {
        match self {
            PullStep::Receive => PullStep::Receive,
            PullStep::Item(out) => PullStep::Item(out.clone()),
            PullStep::Exhausted => PullStep::Exhausted,
            PullStep::Failed(error) => PullStep::Failed(error.clone()),
            PullStep::Rejected => PullStep::Rejected,
        }
    }
}

/// The signal that a terminal state repeats on every pull.
pub open spec fn terminal_signal(state: PullStateView) -> PullStepView
    recommends
        state.is_terminal(),
{
    match state {
        PullStateView::Failed(error) => PullStepView::Failed(error),
        _ => PullStepView::Exhausted,
    }
}

/// The start of a pull: an idle iterator starts pulling, a terminal one
/// repeats its signal, and one that is already pulling refuses.
pub open spec fn begin_spec(state: PullStateView) -> (PullStateView, PullStepView) {
    match state {
        PullStateView::Idle => (PullStateView::Pulling, PullStepView::Receive),
        PullStateView::Pulling => (PullStateView::Pulling, PullStepView::Rejected),
        PullStateView::Completed => (state, terminal_signal(state)),
        PullStateView::Failed(_) => (state, terminal_signal(state)),
    }
}

/// The step of a pull in flight on one received item. An event that decodes
/// to an output ends the pull with it; a skipped event keeps the pull going;
/// the end of the stream completes the iterator; a receive error or a
/// malformed metadata event fails it. Without a pull in flight the item is
/// refused.
pub open spec fn receive_spec(state: PullStateView, item: ReceivedView) -> (PullStateView, PullStepView) {
    if !(state is Pulling) {
        (state, PullStepView::Rejected)
    } else {
        match item {
            ReceivedView::Event(event) => match decode_spec(event) {
                Ok(DecodedView::Emit(out)) => (PullStateView::Idle, PullStepView::Item(out)),
                Ok(DecodedView::Skip) => (PullStateView::Pulling, PullStepView::Receive),
                Err(error) => (PullStateView::Failed(error), PullStepView::Failed(error)),
            },
            ReceivedView::EndOfStream => (PullStateView::Completed, PullStepView::Exhausted),
            ReceivedView::Error { cause } => (
                PullStateView::Failed(StreamErrorView::Receive { cause }),
                PullStepView::Failed(StreamErrorView::Receive { cause }),
            ),
        }
    }
}

/// Giving up a pull in flight: the iterator is idle again, and nothing else
/// changes.
pub open spec fn abandon_spec(state: PullStateView) -> PullStateView {
    match state {
        PullStateView::Pulling => PullStateView::Idle,
        _ => state,
    }
}

/// The cursor of one chat call: the handle of the inbound stream, owned by
/// this iterator and by no other, and the state of the iteration.
#[derive(Debug)]
pub struct ChatEventIterator<H> {
    handle: H,
    state: PullState,
}

/// Mathematical value of a [`ChatEventIterator`].
pub struct ChatEventIteratorView<H> {
    pub handle: H,
    pub state: PullStateView,
}

impl<H> View for ChatEventIterator<H> {
    type V = ChatEventIteratorView<H>;

    closed spec fn view(&self) -> ChatEventIteratorView<H> {
        ChatEventIteratorView { handle: self.handle, state: self.state@ }
    }
}

impl<H> ChatEventIterator<H> {
    /// Wraps the handle of a freshly established inbound stream.
    pub fn new(handle: H) -> (it: Self)
        ensures
            it@ == (ChatEventIteratorView { handle, state: PullStateView::Idle }),
    {
        ChatEventIterator { handle, state: PullState::Idle }
    }

    /// The state of the iteration.
    pub fn state(&self) -> (state: PullState)
        ensures
            state@ == self@.state,
    {
        self.state.clone()
    }

    /// Whether the iteration has ended, normally or not.
    pub fn is_terminal(&self) -> (b: bool)
        ensures
            b == self@.state.is_terminal(),
    {
        match &self.state {
            PullState::Completed => true,
            PullState::Failed(_) => true,
            _ => false,
        }
    }

    /// The stream handle, for the driver to receive from.
    pub fn handle_mut(&mut self) -> (handle: &mut H)
        ensures
            *handle == old(self)@.handle,
            final(self)@ == (ChatEventIteratorView { handle: *final(handle), state: old(self)@.state }),
    {
        &mut self.handle
    }

    /// Gives the stream handle up, which ends the iteration whatever its state.
    pub fn into_handle(self) -> (handle: H)
        ensures
            handle == self@.handle,
    {
        self.handle
    }

    /// Starts a pull.
    pub fn begin_pull(&mut self) -> (step: PullStep)
        ensures
            final(self)@.handle == old(self)@.handle,
            (final(self)@.state, step@) == begin_spec(old(self)@.state),
    {
        match &self.state {
            PullState::Idle => {
                self.state = PullState::Pulling;
                PullStep::Receive
            },
            PullState::Pulling => PullStep::Rejected,
            PullState::Completed => PullStep::Exhausted,
            PullState::Failed(error) => PullStep::Failed(error.clone()),
        }
    }

    /// Takes the item that the driver received for the pull in flight.
    pub fn on_received(&mut self, item: Received) -> (step: PullStep)
        ensures
            final(self)@.handle == old(self)@.handle,
            (final(self)@.state, step@) == receive_spec(old(self)@.state, item@),
    {
        match &self.state {
            PullState::Pulling => {},
            _ => {
                return PullStep::Rejected;
            },
        }
        match item {
            Received::Event(event) => match OutputDecoder::decode(event) {
                Ok(Decoded::Emit(out)) => {
                    self.state = PullState::Idle;
                    PullStep::Item(out)
                },
                Ok(Decoded::Skip) => PullStep::Receive,
                Err(error) => {
                    let signal = error.clone();
                    self.state = PullState::Failed(error);
                    PullStep::Failed(signal)
                },
            },
            Received::EndOfStream => {
                self.state = PullState::Completed;
                PullStep::Exhausted
            },
            Received::Error { cause } => {
                let error = StreamError::Receive { cause };
                let signal = error.clone();
                self.state = PullState::Failed(error);
                PullStep::Failed(signal)
            },
        }
    }

    /// Gives up the pull in flight, if there is one: a pull that its caller
    /// cancelled must not keep the iterator from being pulled again.
    pub fn abandon_pull(&mut self)
        ensures
            final(self)@.handle == old(self)@.handle,
            final(self)@.state == abandon_spec(old(self)@.state),
    {
        match &self.state {
            PullState::Pulling => {
                self.state = PullState::Idle;
            },
            _ => {},
        }
    }
}

} // verus!
