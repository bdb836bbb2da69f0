//! The typed outputs that the adapter hands to its caller.

use vstd::prelude::*;
use vstd::string::StringExecFns;

verus! {

/// One item of the reply to a chat turn.
#[derive(Debug, PartialEq, Eq)]
pub enum Output {
    /// One fragment of the system's reply.
    Text { content: String },
    /// The identifiers of the turn just completed.
    Metadata { conversation_id: String, user_message_id: String, system_message_id: String },
}

/// Mathematical value of an [`Output`].
pub enum OutputView {
    Text { content: Seq<char> },
    Metadata {
        conversation_id: Seq<char>,
        user_message_id: Seq<char>,
        system_message_id: Seq<char>,
    },
}

impl View for Output {
    type V = OutputView;

    open spec fn view(&self) -> OutputView {
        match *self {
            Output::Text { content } => OutputView::Text { content: content@ },
            Output::Metadata { conversation_id, user_message_id, system_message_id } =>
                OutputView::Metadata {
                    conversation_id: conversation_id@,
                    user_message_id: user_message_id@,
                    system_message_id: system_message_id@,
                },
        }
    }
}

impl Clone for Output {
    fn clone(&self) -> (copy: Output)
        ensures
            copy == *self,
    {
        match self {
            Output::Text { content } => Output::Text { content: content.clone() },
            Output::Metadata { conversation_id, user_message_id, system_message_id } => Output::Metadata {
                conversation_id: conversation_id.clone(),
                user_message_id: user_message_id.clone(),
                system_message_id: system_message_id.clone(),
            },
        }
    }
}

impl DeepView for Output {
    type V = OutputView;

    open spec fn deep_view(&self) -> OutputView {
        self@
    }
}

/// The textual rendering of an output.
pub open spec fn rendering(out: OutputView) -> Seq<char> {
    match out {
        OutputView::Text { content } => "Text("@ + content + ")"@,
        OutputView::Metadata { conversation_id, user_message_id, system_message_id } => "Metadata{ChatId: "@
            + conversation_id + ", Sys: "@ + system_message_id + ", Usr: "@ + user_message_id + "}"@,
    }
}

/// The flat form of an output, for hosts whose values have optional
/// attributes in place of variants. An output fills exactly one of the two
/// shapes: the text alone, or the three identifiers alone.
#[derive(Debug, PartialEq, Eq)]
pub struct OutputRecord {
    pub text: Option<String>,
    pub conversation_id: Option<String>,
    pub user_message_id: Option<String>,
    pub system_message_id: Option<String>,
}

/// Mathematical value of an [`OutputRecord`].
pub struct OutputRecordView {
    pub text: Option<Seq<char>>,
    pub conversation_id: Option<Seq<char>>,
    pub user_message_id: Option<Seq<char>>,
    pub system_message_id: Option<Seq<char>>,
}

impl View for OutputRecord {
    type V = OutputRecordView;

    open spec fn view(&self) -> OutputRecordView {
        OutputRecordView {
            text: self.text.deep_view(),
            conversation_id: self.conversation_id.deep_view(),
            user_message_id: self.user_message_id.deep_view(),
            system_message_id: self.system_message_id.deep_view(),
        }
    }
}

impl Clone for OutputRecord {
    fn clone(&self) -> (copy: OutputRecord)
        ensures
            copy == *self,
    {
        OutputRecord {
            text: self.text.clone(),
            conversation_id: self.conversation_id.clone(),
            user_message_id: self.user_message_id.clone(),
            system_message_id: self.system_message_id.clone(),
        }
    }
}

impl OutputRecordView {
    /// Exactly one of the two shapes is filled: not both, and not neither.
    pub open spec fn one_shape(self) -> bool {
        let ids = self.conversation_id is Some && self.user_message_id is Some
            && self.system_message_id is Some;
        let no_id = self.conversation_id is None && self.user_message_id is None
            && self.system_message_id is None;
        (self.text is Some && no_id) || (self.text is None && ids)
    }
}

/// The text of an optional field, empty where the field is absent.
pub open spec fn or_empty(field: Option<Seq<char>>) -> Seq<char> {
    match field {
        Some(text) => text,
        None => Seq::empty(),
    }
}

/// The flat form of an output.
pub open spec fn record_of(out: OutputView) -> OutputRecordView {
    match out {
        OutputView::Text { content } => OutputRecordView {
            text: Some(content),
            conversation_id: None,
            user_message_id: None,
            system_message_id: None,
        },
        OutputView::Metadata { conversation_id, user_message_id, system_message_id } => OutputRecordView {
            text: None,
            conversation_id: Some(conversation_id),
            user_message_id: Some(user_message_id),
            system_message_id: Some(system_message_id),
        },
    }
}

/// The output that a record stands for: a text output where the text is
/// present, else a metadata output in which an absent identifier is empty.
pub open spec fn output_of(record: OutputRecordView) -> OutputView {
    match record.text {
        Some(content) => OutputView::Text { content },
        None => OutputView::Metadata {
            conversation_id: or_empty(record.conversation_id),
            user_message_id: or_empty(record.user_message_id),
            system_message_id: or_empty(record.system_message_id),
        },
    }
}

/// The flat form of an output fills exactly one shape, and stands for that
/// output and no other.
pub proof fn lemma_record_round_trip(out: OutputView)
    ensures
        record_of(out).one_shape(),
        output_of(record_of(out)) == out,
{
}

/// A record that fills exactly one shape is the flat form of the output it
/// stands for.
pub proof fn lemma_one_shape_round_trip(record: OutputRecordView)
    requires
        record.one_shape(),
    ensures
        record_of(output_of(record)) == record,
{
}

/// A record without text renders as metadata, with the empty string in the
/// place of each identifier that is absent.
pub proof fn lemma_absent_fields_render_empty(record: OutputRecordView)
    requires
        record.text is None,
    ensures
        rendering(output_of(record)) == "Metadata{ChatId: "@ + or_empty(record.conversation_id) + ", Sys: "@
            + or_empty(record.system_message_id) + ", Usr: "@ + or_empty(record.user_message_id) + "}"@,
{
}

/// The string in an optional field, empty where the field is absent.
fn text_or_empty(field: Option<String>) -> (text: String)
    ensures
        text@ == or_empty(field.deep_view()),
{
    match field {
        Some(text) => text,
        None => String::new(),
    }
}

impl Output {
    /// A text output with the given content.
    pub fn text(value: String) -> (out: Output)
        ensures
            out@ == (OutputView::Text { content: value@ }),
    {
        Output::Text { content: value }
    }

    /// A metadata output with the given identifiers.
    pub fn metadata(conversation_id: String, user_message_id: String, system_message_id: String) -> (out: Output)
        ensures
            out@ == (OutputView::Metadata {
                conversation_id: conversation_id@,
                user_message_id: user_message_id@,
                system_message_id: system_message_id@,
            }),
    {
        Output::Metadata { conversation_id, user_message_id, system_message_id }
    }

    /// Whether this is a text output.
    pub fn is_text(&self) -> (b: bool)
        ensures
            b == (self@ is Text),
    {
        match self {
            Output::Text { .. } => true,
            Output::Metadata { .. } => false,
        }
    }

    /// Whether this is a metadata output.
    pub fn is_metadata(&self) -> (b: bool)
        ensures
            b == (self@ is Metadata),
    {
        match self {
            Output::Text { .. } => false,
            Output::Metadata { .. } => true,
        }
    }

    /// The output that `record` stands for.
    pub fn from_record(record: OutputRecord) -> (out: Output)
        ensures
            out@ == output_of(record@),
    {
        match record.text {
            Some(content) => Output::Text { content },
            None => Output::Metadata {
                conversation_id: text_or_empty(record.conversation_id),
                user_message_id: text_or_empty(record.user_message_id),
                system_message_id: text_or_empty(record.system_message_id),
            },
        }
    }

    /// The flat form of this output.
    pub fn into_record(self) -> (record: OutputRecord)
        ensures
            record@ == record_of(self@),
            record@.one_shape(),
    {
        match self {
            Output::Text { content } => OutputRecord {
                text: Some(content),
                conversation_id: None,
                user_message_id: None,
                system_message_id: None,
            },
            Output::Metadata { conversation_id, user_message_id, system_message_id } => OutputRecord {
                text: None,
                conversation_id: Some(conversation_id),
                user_message_id: Some(user_message_id),
                system_message_id: Some(system_message_id),
            },
        }
    }

    /// The rendering of this output: `Text(..)` around the content of a text
    /// output, `Metadata{ChatId: .., Sys: .., Usr: ..}` around the
    /// identifiers of a metadata output.
    pub fn render(&self) -> (text: String)
        ensures
            text@ == rendering(self@),
    {
        match self {
            Output::Text { content } => {
                let mut text = "Text(".to_owned();
                text.append(content.as_str());
                text.append(")");
                text
            },
            Output::Metadata { conversation_id, user_message_id, system_message_id } => {
                let mut text = "Metadata{ChatId: ".to_owned();
                text.append(conversation_id.as_str());
                text.append(", Sys: ");
                text.append(system_message_id.as_str());
                text.append(", Usr: ");
                text.append(user_message_id.as_str());
                text.append("}");
                text
            },
        }
    }
}

} // verus!
