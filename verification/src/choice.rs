//! What the decoder hands to its consumer: text fragments, finished tool
//! calls, and the failures that can take their place.

use crate::json::{debug_text, json_debug_text, json_model, Json};
use vstd::prelude::*;
use vstd::string::StringExecFns;

verus! {

/// Model of a [`StreamingChoice`].
pub enum ChoiceView {
    Message(Seq<char>),
    ToolCall(Seq<char>, Seq<char>, Json),
}

impl ChoiceView {
    /// The line that stands for a choice when it is shown to a person.
    pub open spec fn display_text(self) -> Seq<char> {
        match self {
            ChoiceView::Message(text) => text,
            ChoiceView::ToolCall(name, id, arguments) => "Tool call: "@ + name + " "@ + id + " "@
                + json_debug_text(arguments),
        }
    }
}

/// One item of a model's streamed answer.
#[derive(Debug, PartialEq)]
pub enum StreamingChoice {
    /// A fragment of the answer's text.
    Message(String),
    /// A complete tool call: name, call id, and the parsed arguments.
    ToolCall(String, String, serde_json::Value),
}

impl View for StreamingChoice {
    type V = ChoiceView;

    open spec fn view(&self) -> ChoiceView {
        match self {
            StreamingChoice::Message(text) => ChoiceView::Message(text@),
            StreamingChoice::ToolCall(name, id, arguments) => ChoiceView::ToolCall(
                name@,
                id@,
                json_model(*arguments),
            ),
        }
    }
}

impl StreamingChoice {
    /// The text of a message, or a one-line description of a tool call.
    pub fn to_string(&self) -> (r: String)
        ensures
            r@ == self@.display_text(),
    {
        match self {
            StreamingChoice::Message(text) => text.clone(),
            StreamingChoice::ToolCall(name, id, arguments) => {
                let mut line = "Tool call: ".to_owned();
                line.append(name.as_str());
                line.append(" ");
                line.append(id.as_str());
                line.append(" ");
                let shown = debug_text(arguments);
                line.append(shown.as_str());
                line
            },
        }
    }
}

/// The ways in which decoding can fail, without the detail.
pub enum FailureKind {
    EncodingInvalid,
    JsonMalformed,
    ToolArgumentsMalformed,
}

/// A failure of the decoder.
#[derive(Debug)]
pub enum DecodeError {
    /// A chunk was not valid UTF-8. The stream ends here.
    EncodingInvalid(String),
    /// One payload could not be read as an event. The stream goes on.
    JsonMalformed(String),
    /// The arguments gathered for a tool call were not valid JSON. The call
    /// is lost, the stream goes on.
    ToolArgumentsMalformed(serde_json::Error),
}

impl View for DecodeError {
    type V = FailureKind;

    open spec fn view(&self) -> FailureKind {
        match self {
            DecodeError::EncodingInvalid(_) => FailureKind::EncodingInvalid,
            DecodeError::JsonMalformed(_) => FailureKind::JsonMalformed,
            DecodeError::ToolArgumentsMalformed(_) => FailureKind::ToolArgumentsMalformed,
        }
    }
}

impl DecodeError {
    /// The detail of the failure as text.
    pub fn message(&self) -> (r: String)
        ensures
            self matches DecodeError::EncodingInvalid(text) ==> r@ == text@,
            self matches DecodeError::JsonMalformed(text) ==> r@ == text@,
    {
        match self {
            DecodeError::EncodingInvalid(text) => text.clone(),
            DecodeError::JsonMalformed(text) => text.clone(),
            DecodeError::ToolArgumentsMalformed(cause) => cause.to_string(),
        }
    }
}

/// Model of one item of the output.
pub open spec fn item_view(item: Result<StreamingChoice, DecodeError>) -> Result<
    ChoiceView,
    FailureKind,
> {
    match item {
        Ok(choice) => Ok(choice@),
        Err(failure) => Err(failure@),
    }
}

/// Model of a run of output items.
pub open spec fn items_view(items: Seq<Result<StreamingChoice, DecodeError>>) -> Seq<
    Result<ChoiceView, FailureKind>,
> {
    items.map_values(|item: Result<StreamingChoice, DecodeError>| item_view(item))
}

} // verus!
