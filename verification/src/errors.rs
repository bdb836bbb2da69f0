//! The failures of the adapter. The normal end of a stream is not among
//! them: a caller can always tell "done" from "broken".

use vstd::prelude::*;

verus! {

/// The transport rejected the submission of a chat request. The request is
/// not retried.
#[derive(Debug, PartialEq, Eq)]
pub struct ChatRequestError {
    /// The underlying cause, as the transport gave it.
    pub cause: String,
}

impl Clone for ChatRequestError {
    fn clone(&self) -> (copy: ChatRequestError)
        ensures
            copy == *self,
    {
        ChatRequestError { cause: self.cause.clone() }
    }
}

/// How an established inbound stream breaks.
#[derive(Debug, PartialEq, Eq)]
pub enum StreamError {
    /// Receiving the next inbound item failed.
    Receive { cause: String },
    /// A metadata event arrived without one of its three identifiers.
    MalformedMetadata,
}

/// Mathematical value of a [`StreamError`].
pub enum StreamErrorView {
    Receive { cause: Seq<char> },
    MalformedMetadata,
}

impl View for StreamError {
    type V = StreamErrorView;

    open spec fn view(&self) -> StreamErrorView {
        match *self {
            StreamError::Receive { cause } => StreamErrorView::Receive { cause: cause@ },
            StreamError::MalformedMetadata => StreamErrorView::MalformedMetadata,
        }
    }
}

impl Clone for StreamError {
    fn clone(&self) -> (copy: StreamError)
        ensures
            copy == *self,
    {
        match self {
            StreamError::Receive { cause } => StreamError::Receive { cause: cause.clone() },
            StreamError::MalformedMetadata => StreamError::MalformedMetadata,
        }
    }
}

} // verus!
