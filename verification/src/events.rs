//! The events that travel on the bidirectional stream of one chat turn.

use vstd::prelude::*;

verus! {

/// One event of the outbound stream.
#[derive(Debug, PartialEq, Eq)]
pub enum InputEvent {
    /// The user's turn, carrying the query text.
    TextTurn { message: String },
    /// The explicit terminator of the outbound stream.
    EndOfInput,
}

/// Mathematical value of an [`InputEvent`].
pub enum InputEventView {
    TextTurn { message: Seq<char> },
    EndOfInput,
}

impl View for InputEvent {
    type V = InputEventView;

    open spec fn view(&self) -> InputEventView {
        match *self {
            InputEvent::TextTurn { message } => InputEventView::TextTurn { message: message@ },
            InputEvent::EndOfInput => InputEventView::EndOfInput,
        }
    }
}

impl Clone for InputEvent {
    fn clone(&self) -> (copy: InputEvent)
        ensures
            copy == *self,
    {
        match self {
            InputEvent::TextTurn { message } => InputEvent::TextTurn { message: message.clone() },
            InputEvent::EndOfInput => InputEvent::EndOfInput,
        }
    }
}

impl DeepView for InputEvent {
    type V = InputEventView;

    open spec fn deep_view(&self) -> InputEventView {
        self@
    }
}

/// The outbound sequence of one chat turn: the query, then the terminator.
pub open spec fn outbound_sequence(query: Seq<char>) -> Seq<InputEventView> {
    seq![InputEventView::TextTurn { message: query }, InputEventView::EndOfInput]
}

/// Builds the outbound events of one chat turn.
pub struct InputEventBuilder;

impl InputEventBuilder {
    /// The two outbound events for `query`, which is passed through verbatim:
    /// an empty query is a legal query.
    pub fn build(query: String) -> (events: Vec<InputEvent>)
        ensures
            events.len() == 2,
            events.deep_view() == outbound_sequence(query@),
    {
        let mut events: Vec<InputEvent> = Vec::new();
        events.push(InputEvent::TextTurn { message: query });
        events.push(InputEvent::EndOfInput);
        assert(events.deep_view() =~= outbound_sequence(query@));
        events
    }
}

/// One event of the inbound stream, reduced to what the adapter reads of it.
#[derive(Debug, PartialEq, Eq)]
pub enum InboundEvent {
    /// A fragment of the system's reply; the service may send it without text.
    TextChunk { system_message: Option<String> },
    /// The identifiers of the turn.
    Metadata {
        conversation_id: Option<String>,
        user_message_id: Option<String>,
        system_message_id: Option<String>,
    },
    /// Any other variant of the protocol, present or future.
    Unrecognized,
}

/// Mathematical value of an [`InboundEvent`].
pub enum InboundEventView {
    TextChunk { system_message: Option<Seq<char>> },
    Metadata {
        conversation_id: Option<Seq<char>>,
        user_message_id: Option<Seq<char>>,
        system_message_id: Option<Seq<char>>,
    },
    Unrecognized,
}

impl View for InboundEvent {
    type V = InboundEventView;

    open spec fn view(&self) -> InboundEventView {
        match *self {
            InboundEvent::TextChunk { system_message } => InboundEventView::TextChunk {
                system_message: system_message.deep_view(),
            },
            InboundEvent::Metadata { conversation_id, user_message_id, system_message_id } =>
                InboundEventView::Metadata {
                    conversation_id: conversation_id.deep_view(),
                    user_message_id: user_message_id.deep_view(),
                    system_message_id: system_message_id.deep_view(),
                },
            InboundEvent::Unrecognized => InboundEventView::Unrecognized,
        }
    }
}

impl Clone for InboundEvent {
    fn clone(&self) -> (copy: InboundEvent)
        ensures
            copy == *self,
    {
        match self {
            InboundEvent::TextChunk { system_message } => InboundEvent::TextChunk {
                system_message: system_message.clone(),
            },
            InboundEvent::Metadata { conversation_id, user_message_id, system_message_id } =>
                InboundEvent::Metadata {
                    conversation_id: conversation_id.clone(),
                    user_message_id: user_message_id.clone(),
                    system_message_id: system_message_id.clone(),
                },
            InboundEvent::Unrecognized => InboundEvent::Unrecognized,
        }
    }
}

} // verus!
