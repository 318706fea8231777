//! Events of a backend's response stream.

use crate::chain::ErrorChain;
use crate::text;
use crate::text::{contents, is_blank, joined};
use vstd::prelude::*;

verus! {

/// The JSON body that a legacy error event carries in its comment.
#[derive(Debug)]
pub struct ErrorPayload {
    pub message: Option<String>,
    pub code: Option<u16>,
}

/// An event of a response stream: some data, or a note about the stream.
#[derive(Debug)]
pub struct Annotated<T> {
    pub data: Option<T>,
    pub event: Option<String>,
    pub comment: Option<Vec<String>>,
    pub error: Option<ErrorChain>,
    /// Whether the event is marked as an error.
    pub error_marker: bool,
}

/// The text of a comment, if it shows anything.
pub open spec fn comment_text(comment: Option<Vec<String>>) -> Seq<char> {
    match comment {
        Some(comments) => {
            let text = joined(contents(comments@), ", "@);
            if is_blank(text) {
                "unspecified error"@
            } else {
                text
            }
        },
        None => "unspecified error"@,
    }
}

impl<T> Annotated<T> {
    /// The event that reports an error.
    pub fn from_err(error: ErrorChain) -> (event: Annotated<T>)
        ensures
            event.error == Some(error),
            event.error_marker,
            event.data is None,
            event.comment is None,
            event.event matches Some(name) && name@ == "error"@,
    {
        Annotated {
            data: None,
            event: Some("error".to_owned()),
            comment: None,
            error: Some(error),
            error_marker: true,
        }
    }

    /// Whether the event is marked as an error.
    pub fn is_error(&self) -> (answer: bool)
        ensures
            answer == self.error_marker,
    {
        self.error_marker
    }

    /// Whether the event is marked as an error that only its comment describes.
    pub open spec fn is_legacy_error(self) -> bool {
        self.error_marker && self.error is None
    }

    /// Whether there is nothing in the event but a comment. Legacy backends used
    /// that as an error marker.
    pub open spec fn is_bare_comment(self) -> bool {
        &&& self.data is None
        &&& self.event is None
        &&& self.comment matches Some(comments) && comments.len() > 0
    }

    /// What a legacy error event says of its error. This is the text that may be
    /// the JSON body of an [`ErrorPayload`].
    pub fn legacy_diagnostic(&self) -> (text: Option<String>)
        ensures
            text is Some <==> self.is_legacy_error(),
            text is Some <==> self.error_marker && self.error is None,
            text matches Some(text) ==> text@ == comment_text(self.comment),
    {
        if !self.is_error() || self.error.is_some() {
            return None;
        }
        if let Some(comments) = &self.comment {
            let text = text::join(comments, ", ");
            if !text::blank(text.as_str()) {
                return Some(text);
            }
        }
        Some("unspecified error".to_owned())
    }
}

} // verus!
