//! Decoding of one inbound event into an output, or into nothing.

use vstd::prelude::*;
use crate::errors::{StreamError, StreamErrorView};
use crate::events::{InboundEvent, InboundEventView};
use crate::output::{Output, OutputView};

verus! {

/// What one inbound event amounts to for the caller.
#[derive(Debug, PartialEq, Eq)]
pub enum Decoded {
    /// The event surfaces as this output.
    Emit(Output),
    /// The event is valid but not surfaced.
    Skip,
}

/// Mathematical value of a [`Decoded`].
pub enum DecodedView {
    Emit(OutputView),
    Skip,
}

impl View for Decoded {
    type V = DecodedView;

    open spec fn view(&self) -> DecodedView {
        match *self {
            Decoded::Emit(out) => DecodedView::Emit(out@),
            Decoded::Skip => DecodedView::Skip,
        }
    }
}

impl Clone for Decoded {
    fn clone(&self) -> (copy: Decoded)
        ensures
            copy == *self,
    {
        match self {
            Decoded::Emit(out) => Decoded::Emit(out.clone()),
            Decoded::Skip => Decoded::Skip,
        }
    }
}

/// Mathematical value of the result of decoding.
pub open spec fn decoding_view(r: Result<Decoded, StreamError>) -> Result<DecodedView, StreamErrorView> {
    match r {
        Ok(d) => Ok(d@),
        Err(e) => Err(e@),
    }
}

/// What an inbound event decodes to: a text chunk gives its text, or the
/// empty text where it has none; a metadata event gives its three identifiers
/// and is malformed if one is missing; anything else is skipped.
pub open spec fn decode_spec(event: InboundEventView) -> Result<DecodedView, StreamErrorView> {
    match event {
        InboundEventView::TextChunk { system_message: Some(text) } => Ok(
            DecodedView::Emit(OutputView::Text { content: text }),
        ),
        InboundEventView::TextChunk { system_message: None } => Ok(
            DecodedView::Emit(OutputView::Text { content: Seq::empty() }),
        ),
        InboundEventView::Metadata {
            conversation_id: Some(c),
            user_message_id: Some(u),
            system_message_id: Some(s),
        } => Ok(
            DecodedView::Emit(
                OutputView::Metadata { conversation_id: c, user_message_id: u, system_message_id: s },
            ),
        ),
        InboundEventView::Metadata { .. } => Err(StreamErrorView::MalformedMetadata),
        InboundEventView::Unrecognized => Ok(DecodedView::Skip),
    }
}

/// Maps single inbound events to outputs.
pub struct OutputDecoder;

impl OutputDecoder {
    /// Decodes one inbound event.
    pub fn decode(event: InboundEvent) -> (r: Result<Decoded, StreamError>)
        ensures
            decoding_view(r) == decode_spec(event@),
    {
        match event {
            InboundEvent::TextChunk { system_message } => {
                match system_message {
                    Some(text) => Ok(Decoded::Emit(Output::text(text))),
                    None => Ok(Decoded::Emit(Output::text(String::new()))),
                }
            },
            InboundEvent::Metadata { conversation_id, user_message_id, system_message_id } => {
                match (conversation_id, user_message_id, system_message_id) {
                    (Some(c), Some(u), Some(s)) => Ok(Decoded::Emit(Output::metadata(c, u, s))),
                    _ => Err(StreamError::MalformedMetadata),
                }
            },
            InboundEvent::Unrecognized => Ok(Decoded::Skip),
        }
    }
}

/// A text chunk without text decodes to the empty text, never to an error.
pub proof fn lemma_absent_text_is_empty_text()
    ensures
        decode_spec(InboundEventView::TextChunk { system_message: None }) == Ok::<DecodedView, StreamErrorView>(
            DecodedView::Emit(OutputView::Text { content: Seq::empty() }),
        ),
{
}

/// A metadata event is malformed exactly when one of its identifiers is
/// missing, whichever it is.
pub proof fn lemma_metadata_malformed_iff_incomplete(
    conversation_id: Option<Seq<char>>,
    user_message_id: Option<Seq<char>>,
    system_message_id: Option<Seq<char>>,
)
    ensures
        decode_spec(InboundEventView::Metadata { conversation_id, user_message_id, system_message_id })
            == Err::<DecodedView, StreamErrorView>(StreamErrorView::MalformedMetadata) <==> (conversation_id is None
            || user_message_id is None || system_message_id is None),
{
}

/// Only unrecognized events are skipped, and no event but a metadata event
/// fails to decode.
pub proof fn lemma_decode_cases(event: InboundEventView)
    ensures
        decode_spec(event) == Ok::<DecodedView, StreamErrorView>(DecodedView::Skip) <==> event is Unrecognized,
        decode_spec(event) is Err ==> event is Metadata,
{
}

} // verus!
