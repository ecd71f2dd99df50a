//! Plain-text extraction from choice-shaped response elements.
use vstd::prelude::*;

verus! {

/// The plain text that a choice-shaped value yields: its textual content, or
/// the empty text where it has none.
pub open spec fn content_text(text: Option<Seq<char>>) -> Seq<char> {
    match text {
        Some(t) => t,
        None => Seq::empty(),
    }
}

/// Extracts the completion text from a choice-level response element.
///
/// A choice with no text (a tool call, a role marker, an empty delta) yields
/// the empty string rather than an absent value, so that one accumulation
/// loop serves every shape of choice.
pub trait ContentProvider {
    /// The textual content of the choice, if it has any.
    spec fn text(&self) -> Option<Seq<char>>;

    /// The completion text of the choice, empty where it has none.
    fn content(&self) -> (r: String)
        ensures
            r@ == content_text(self.text()),
    ;
}

/// The shapes a choice takes in the response schemas.
#[derive(Clone, Debug, PartialEq, Eq)]
pub enum Choice {
    /// A completion choice with its generated text.
    Completion(String),
    /// A streamed chat delta: an optional role marker and optional text.
    Delta { role: Option<String>, text: Option<String> },
    /// A request to call a tool, which carries no text.
    ToolCall { name: String, arguments: String },
}

impl ContentProvider for Choice {
    open spec fn text(&self) -> Option<Seq<char>> {
        match self {
            Choice::Completion(t) => Some(t@),
            Choice::Delta { text: Some(t), .. } => Some(t@),
            Choice::Delta { text: None, .. } => None,
            Choice::ToolCall { .. } => None,
        }
    }

    fn content(&self) -> (r: String) {
        match self {
            Choice::Completion(t) => t.clone(),
            Choice::Delta { text: Some(t), .. } => t.clone(),
            Choice::Delta { text: None, .. } => String::new(),
            Choice::ToolCall { .. } => String::new(),
        }
    }
}

} // verus!
