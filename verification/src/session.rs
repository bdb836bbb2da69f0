//! The session of one application, and the two ends of a chat call: the
//! request that is submitted, and what the submission's outcome amounts to.

use vstd::prelude::*;
use crate::errors::ChatRequestError;
use crate::events::{outbound_sequence, InputEvent, InputEventBuilder};
use crate::iterator::{ChatEventIterator, ChatEventIteratorView, PullStateView};

verus! {

/// The request of one chat turn. The two optional identifiers are passed
/// through as given; it is the service that validates them.
#[derive(Debug, PartialEq, Eq)]
pub struct ChatRequest {
    pub application_id: String,
    pub query: String,
    pub conversation_id: Option<String>,
    pub parent_message_id: Option<String>,
}

/// Mathematical value of a [`ChatRequest`].
pub struct ChatRequestView {
    pub application_id: Seq<char>,
    pub query: Seq<char>,
    pub conversation_id: Option<Seq<char>>,
    pub parent_message_id: Option<Seq<char>>,
}

impl ChatRequestView {
    /// A request names its application.
    pub open spec fn well_formed(self) -> bool {
        self.application_id.len() > 0
    }
}

impl View for ChatRequest {
    type V = ChatRequestView;

    open spec fn view(&self) -> ChatRequestView {
        ChatRequestView {
            application_id: self.application_id@,
            query: self.query@,
            conversation_id: self.conversation_id.deep_view(),
            parent_message_id: self.parent_message_id.deep_view(),
        }
    }
}

impl Clone for ChatRequest {
    fn clone(&self) -> (copy: ChatRequest)
        ensures
            copy == *self,
    {
        ChatRequest {
            application_id: self.application_id.clone(),
            query: self.query.clone(),
            conversation_id: self.conversation_id.clone(),
            parent_message_id: self.parent_message_id.clone(),
        }
    }
}

impl ChatRequest {
    /// The outbound events that go with this request: the query as one text
    /// turn, then the end of the input.
    pub fn input_events(&self) -> (events: Vec<InputEvent>)
        ensures
            events.len() == 2,
            events.deep_view() == outbound_sequence(self@.query),
    {
        InputEventBuilder::build(self.query.clone())
    }
}

/// A session bound to one application of the service.
#[derive(Debug, PartialEq, Eq)]
pub struct ChatSession {
    application_id: String,
}

/// Mathematical value of a [`ChatSession`].
pub struct ChatSessionView {
    pub application_id: Seq<char>,
}

impl View for ChatSession {
    type V = ChatSessionView;

    closed spec fn view(&self) -> ChatSessionView {
        ChatSessionView { application_id: self.application_id@ }
    }
}

impl Clone for ChatSession {
    fn clone(&self) -> (copy: ChatSession)
        ensures
            copy == *self,
    {
        proof {
            use_type_invariant(self);
        }
        ChatSession { application_id: self.application_id.clone() }
    }
}

impl ChatSession {
    #[verifier::type_invariant]
    spec fn names_an_application(self) -> bool {
        self.application_id@.len() > 0
    }

    /// A session for the application `application_id`, or nothing where the
    /// identifier is empty.
    pub fn new(application_id: String) -> (session: Option<ChatSession>)
        ensures
            session is Some <==> application_id@.len() > 0,
            session matches Some(s) ==> s@.application_id == application_id@,
    {
        if application_id.as_str().is_empty() {
            None
        } else {
            Some(ChatSession { application_id })
        }
    }

    /// The identifier of the session's application.
    pub fn application_id(&self) -> (id: &String)
        ensures
            id@ == self@.application_id,
            id@.len() > 0,
    {
        proof {
            use_type_invariant(self);
        }
        &self.application_id
    }

    /// The request of the chat turn `query` in this session. The query is
    /// taken verbatim, empty or not, and each call makes one request: there
    /// is no retry.
    pub fn begin_chat(
        &self,
        query: String,
        conversation_id: Option<String>,
        parent_message_id: Option<String>,
    ) -> (request: ChatRequest)
        ensures
            request@ == (ChatRequestView {
                application_id: self@.application_id,
                query: query@,
                conversation_id: conversation_id.deep_view(),
                parent_message_id: parent_message_id.deep_view(),
            }),
            request@.well_formed(),
    {
        proof {
            use_type_invariant(self);
        }
        ChatRequest {
            application_id: self.application_id.clone(),
            query,
            conversation_id,
            parent_message_id,
        }
    }

    /// What the submission of a request amounts to: an iterator over the
    /// stream whose handle the transport gave, idle and untouched, or the
    /// error with the transport's cause; never both, and never a handle
    /// without its iterator.
    pub fn finish_chat<H>(outcome: Result<H, String>) -> (chat: Result<ChatEventIterator<H>, ChatRequestError>)
        ensures
            match outcome {
                Ok(handle) => chat matches Ok(it) && it@ == (ChatEventIteratorView {
                    handle,
                    state: PullStateView::Idle,
                }),
                Err(cause) => chat matches Err(error) && error.cause == cause,
            },
    {
        match outcome {
            Ok(handle) => Ok(ChatEventIterator::new(handle)),
            Err(cause) => Err(ChatRequestError { cause }),
        }
    }
}

} // verus!
