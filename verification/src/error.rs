//! The one error type of the library, and its mathematical model.

use crate::value::{Json, ValueTree};
use vstd::prelude::*;
use vstd::std_specs::convert::FromSpecImpl;
use vstd::string::*;

verus! {

/// `hyper::Error`, the error of the HTTP client. Nothing is known of what a
/// value of it holds.
#[verifier::external_type_specification]
#[verifier::external_body]
pub struct ExTransportError(hyper::Error);

/// `serde_json::Error`, the error of the JSON parser. Nothing is known of
/// what a value of it holds.
#[verifier::external_type_specification]
#[verifier::external_body]
pub struct ExSyntaxError(serde_json::Error);

/// Why no forecast could be had.
///
/// The first two kinds say that a document was read and did not have the
/// shape of a forecast. The other two carry, unchanged, the error of the
/// collaborator that failed before there was a document to decode.
#[derive(Debug)]
pub enum DecodeError {
    /// An object lacks the required field of this name.
    Missing(String),
    /// A value is not of the kind that was expected: the name of the field
    /// that holds it, the kind expected there, and the value itself. The name
    /// is empty where the value is not the value of a field.
    TypeMismatch(String, String, ValueTree),
    /// The request could not be made or answered.
    Transport(hyper::Error),
    /// The answer is no JSON document.
    Malformed(serde_json::Error),
}

/// A [`DecodeError`] as mathematics: the view of an error.
pub enum Failure {
    Missing(Seq<char>),
    TypeMismatch(Seq<char>, Seq<char>, Json),
    Transport(hyper::Error),
    Malformed(serde_json::Error),
}

impl Failure {
    /// This failure as reported for the field `name`: a mismatch that names
    /// no field yet is a mismatch of that field's own value and takes the
    /// name; every other failure came from deeper down and stays as it is.
    pub open spec fn in_field(self, name: Seq<char>) -> Failure {
        match self {
            Failure::TypeMismatch(n, expected, actual) => if n.len() == 0 {
                Failure::TypeMismatch(name, expected, actual)
            } else {
                self
            },
            _ => self,
        }
    }

    /// Whether a document was read and found wanting.
    pub open spec fn is_decode(self) -> bool {
        self is Missing || self is TypeMismatch
    }

    /// The words for a failure to decode.
    pub open spec fn text(self) -> Seq<char> {
        match self {
            Failure::Missing(name) => "missing field "@ + name,
            Failure::TypeMismatch(name, expected, _) => if name.len() == 0 {
                "expected "@ + expected
            } else {
                "expected "@ + expected + " in field "@ + name
            },
            _ => Seq::empty(),
        }
    }
}

impl View for DecodeError {
    type V = Failure;

    open spec fn view(&self) -> Failure {
        match self {
            DecodeError::Missing(name) => Failure::Missing(name@),
            DecodeError::TypeMismatch(name, expected, actual) => Failure::TypeMismatch(
                name@,
                expected@,
                actual@,
            ),
            DecodeError::Transport(e) => Failure::Transport(*e),
            DecodeError::Malformed(e) => Failure::Malformed(*e),
        }
    }
}

impl DeepView for DecodeError {
    type V = Failure;

    open spec fn deep_view(&self) -> Failure {
        self@
    }
}

/// What a decoder returned, as mathematics.
pub open spec fn outcome<T: DeepView>(r: Result<T, DecodeError>) -> Result<T::V, Failure> {
    match r {
        Ok(x) => Ok(x.deep_view()),
        Err(e) => Err(e@),
    }
}

/// The text that `hyper::Error` prints of itself through `Display`. The
/// contract claims nothing of it.
#[verifier::external_body]
fn transport_text(e: &hyper::Error) -> String {
    e.to_string()
}

/// The text that `serde_json::Error` prints of itself through `Display`. The
/// contract claims nothing of it.
#[verifier::external_body]
fn syntax_text(e: &serde_json::Error) -> String {
    e.to_string()
}

impl DecodeError {
    /// This error as reported for the field `name`.
    pub fn in_field(self, name: &str) -> (r: DecodeError)
        ensures
            r@ == self@.in_field(name@),
    {
        match self {
            DecodeError::TypeMismatch(n, expected, actual) => {
                if n.as_str().is_empty() {
                    DecodeError::TypeMismatch(name.to_owned(), expected, actual)
                } else {
                    DecodeError::TypeMismatch(n, expected, actual)
                }
            },
            other => other,
        }
    }

    /// A line of text that says what went wrong. For a failure to decode the
    /// words are the library's own; for the other kinds they are those of the
    /// collaborator's error.
    pub fn description(&self) -> (r: String)
        ensures
            self@.is_decode() ==> r@ == self@.text(),
    {
        match self {
            DecodeError::Missing(name) => {
                let mut s = "missing field ".to_owned();
                s.append(name.as_str());
                s
            },
            DecodeError::TypeMismatch(name, expected, _) => {
                let mut s = "expected ".to_owned();
                s.append(expected.as_str());
                if !name.as_str().is_empty() {
                    s.append(" in field ");
                    s.append(name.as_str());
                }
                s
            },
            DecodeError::Transport(e) => transport_text(e),
            DecodeError::Malformed(e) => syntax_text(e),
        }
    }
}

impl From<hyper::Error> for DecodeError {
    fn from(e: hyper::Error) -> (r: DecodeError) {
        DecodeError::Transport(e)
    }
}

impl FromSpecImpl<hyper::Error> for DecodeError {
    open spec fn obeys_from_spec() -> bool {
        true
    }

    open spec fn from_spec(e: hyper::Error) -> DecodeError {
        DecodeError::Transport(e)
    }
}

impl From<serde_json::Error> for DecodeError {
    fn from(e: serde_json::Error) -> (r: DecodeError) {
        DecodeError::Malformed(e)
    }
}

impl FromSpecImpl<serde_json::Error> for DecodeError {
    open spec fn obeys_from_spec() -> bool {
        true
    }

    open spec fn from_spec(e: serde_json::Error) -> DecodeError {
        DecodeError::Malformed(e)
    }
}

} // verus!
