//! Plain records that the services around the session manager exchange.

use vstd::prelude::*;
use vstd::string::*;

verus! {

/// A note that is to be stored.
#[derive(Clone, Debug, PartialEq, Eq)]
pub struct TodoNew {
    pub note: String,
}

/// A stored note.
#[derive(Clone, Debug, PartialEq, Eq)]
pub struct Todo {
    pub id: i32,
    pub note: String,
}

/// The name and the model of an embedding request.
#[derive(Clone, Debug, PartialEq, Eq)]
pub struct CreateConfig {
    pub name: String,
    pub model: String,
}

/// The entry point of the document utilities.
#[derive(Clone, Copy, Debug, PartialEq, Eq)]
pub struct PdfUtils;

/// A document could not be parsed.
#[derive(Clone, Debug, PartialEq, Eq)]
pub struct ParsingError {
    message: String,
}

impl View for ParsingError {
    type V = Seq<char>;

    closed spec fn view(&self) -> Seq<char> {
        self.message@
    }
}

impl ParsingError {
    /// A parsing error with this message.
    pub fn new(message: &str) -> (error: ParsingError)
        ensures
            error@ == message@,
    {
        ParsingError { message: String::from_str(message) }
    }

    /// The message, as it is shown.
    pub fn message(&self) -> (message: &str)
        ensures
            message@ == self@,
    {
        self.message.as_str()
    }
}

/// The text of a question that is put to a completion model together with
/// the passages it is to be answered from.
pub open spec fn prompt_text(prompt: Seq<char>, contents: Seq<char>) -> Seq<char> {
    prompt + "\n Context: "@ + contents + "\n Be concise"@
}

/// Builds the text of a question with its context.
pub fn chat_prompt(prompt: &str, contents: &str) -> (text: String)
    ensures
        text@ == prompt_text(prompt@, contents@),
{
    let mut text = String::from_str(prompt);
    text.append("\n Context: ");
    text.append(contents);
    text.append("\n Be concise");
    text
}

} // verus!
