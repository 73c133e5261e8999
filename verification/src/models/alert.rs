//! Warnings of severe weather.

use crate::error::{outcome, DecodeError, Failure};
use crate::extract::{
    array_of, coercions_fail_by_decoding, elements, elements_fail_by_decoding, fails_by_decoding,
    field_fails_by_decoding, integer, into_string, into_u64, lemma_agrees_at_start, next_optional,
    next_required, optional, required, string, unfit, within_decoding, Trail,
};
use crate::value::{Json, ValueTree};
use vstd::prelude::*;

verus! {

/// A warning of severe weather, issued for the place of a forecast.
#[derive(Clone, Debug, PartialEq)]
pub struct Alert {
    /// When the alert expires, in seconds since the Unix epoch.
    pub expires: Option<u64>,
    /// What the alert says, at length.
    pub description: String,
    /// What the alert says, in a line.
    pub title: String,
    /// Where more about the alert can be read.
    pub uri: String,
}

/// An [`Alert`] as mathematics.
pub struct AlertView {
    pub expires: Option<u64>,
    pub description: Seq<char>,
    pub title: Seq<char>,
    pub uri: Seq<char>,
}

impl View for Alert {
    type V = AlertView;

    open spec fn view(&self) -> AlertView {
        AlertView {
            expires: self.expires.deep_view(),
            description: self.description.deep_view(),
            title: self.title.deep_view(),
            uri: self.uri.deep_view(),
        }
    }
}

impl DeepView for Alert {
    type V = AlertView;

    open spec fn deep_view(&self) -> AlertView {
        self@
    }
}

impl Alert {
    /// What a value decodes to: an `Alert` where it is an object whose every
    /// declared field decodes, and else the failure of the first declared field
    /// that does not. Fields that are not declared are passed over.
    pub open spec fn decoded(j: Json) -> Result<AlertView, Failure> {
        match j {
            Json::Object(m) => {
                let expires = optional(m, "expires"@, |j: Json| integer(j));
                let description = required(m, "description"@, |j: Json| string(j));
                let title = required(m, "title"@, |j: Json| string(j));
                let uri = required(m, "uri"@, |j: Json| string(j));
                if expires is Err {
                    Err(expires->Err_0)
                } else if description is Err {
                    Err(description->Err_0)
                } else if title is Err {
                    Err(title->Err_0)
                } else if uri is Err {
                    Err(uri->Err_0)
                } else {
                    Ok(
                        AlertView {
                            expires: expires->Ok_0,
                            description: description->Ok_0,
                            title: title->Ok_0,
                            uri: uri->Ok_0,
                        },
                    )
                }
            },
            _ => Err(unfit("object"@, j)),
        }
    }

    /// What an array of values decodes to, each element an `Alert`.
    pub open spec fn decoded_all(j: Json) -> Result<Seq<AlertView>, Failure> {
        elements(j, |e: Json| Self::decoded(e))
    }

    /// The place of a field's name in the order in which the fields are
    /// declared.
    #[verifier::opaque]
    closed spec fn rank(name: Seq<char>) -> int {
        if name == "expires"@ {
            0
        } else if name == "description"@ {
            1
        } else if name == "title"@ {
            2
        } else if name == "uri"@ {
            3
        } else {
            4
        }
    }

    /// Every declared field has its own place in the order: no two share a name.
    proof fn lemma_rank()
        ensures
            Self::rank("expires"@) == 0,
            Self::rank("description"@) == 1,
            Self::rank("title"@) == 2,
            Self::rank("uri"@) == 3,
    {
        reveal(Alert::rank);
        reveal_strlit("expires");
        reveal_strlit("description");
        reveal_strlit("title");
        reveal_strlit("uri");
        assert("expires"@ =~= seq!['e', 'x', 'p', 'i', 'r', 'e', 's']);
        assert("description"@ =~= seq!['d', 'e', 's', 'c', 'r', 'i', 'p', 't', 'i', 'o', 'n']);
        assert("title"@ =~= seq!['t', 'i', 't', 'l', 'e']);
        assert("uri"@ =~= seq!['u', 'r', 'i']);
    }

    /// Decodes an `Alert` from an object, field by field in the order of
    /// their declaration. The first field that fails ends the work, and its
    /// failure is the result.
    pub fn decode(value: ValueTree) -> (r: Result<Alert, DecodeError>)
        ensures
            outcome(r) == Self::decoded(value@),
    {
        match value {
            ValueTree::Object(mut node) => {
                let ghost trail = Trail {
                    origin: node@,
                    rank: |name: Seq<char>| Self::rank(name),
                };
                proof {
                    Self::lemma_rank();
                    lemma_agrees_at_start(trail);
                }
                let expires = next_optional(
                    &mut node,
                    "expires",
                    into_u64,
                    Ghost(trail),
                    Ghost(|j: Json| integer(j)),
                )?;
                let description = next_required(
                    &mut node,
                    "description",
                    into_string,
                    Ghost(trail),
                    Ghost(|j: Json| string(j)),
                )?;
                let title = next_required(
                    &mut node,
                    "title",
                    into_string,
                    Ghost(trail),
                    Ghost(|j: Json| string(j)),
                )?;
                let uri = next_required(
                    &mut node,
                    "uri",
                    into_string,
                    Ghost(trail),
                    Ghost(|j: Json| string(j)),
                )?;
                Ok(Alert { expires, description, title, uri })
            },
            other => Err(DecodeError::TypeMismatch(String::new(), "object".to_owned(), other)),
        }
    }

    /// Decoding an `Alert` fails only by decoding: with a missing field or a
    /// mismatch, and never with the failure of a collaborator.
    pub proof fn fails_by_decoding()
        ensures
            forall|j: Json| within_decoding(#[trigger] Self::decoded(j)),
            fails_by_decoding(|j: Json| Self::decoded(j)),
            fails_by_decoding(|j: Json| Self::decoded_all(j)),
    {
        coercions_fail_by_decoding();
        assert forall|j: Json| within_decoding(#[trigger] Self::decoded(j)) by {
            if let Json::Object(m) = j {
                field_fails_by_decoding(m, "expires"@, |j: Json| integer(j));
                field_fails_by_decoding(m, "description"@, |j: Json| string(j));
                field_fails_by_decoding(m, "title"@, |j: Json| string(j));
                field_fails_by_decoding(m, "uri"@, |j: Json| string(j));
            }
        }
        assert forall|j: Json| within_decoding(#[trigger] Self::decoded_all(j)) by {
            elements_fail_by_decoding(j, |e: Json| Self::decoded(e));
        }
    }

    /// Decodes an array whose every element is an `Alert`.
    pub fn decode_all(value: ValueTree) -> (r: Result<Vec<Alert>, DecodeError>)
        ensures
            outcome(r) == Self::decoded_all(value@),
    {
        array_of(value, Self::decode, Ghost(|e: Json| Self::decoded(e)))
    }
}

} // verus!
