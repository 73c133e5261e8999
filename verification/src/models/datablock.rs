//! The weather over a stretch of time.

use crate::error::{outcome, DecodeError, Failure};
use crate::extract::{
    coercions_fail_by_decoding, fails_by_decoding, field_fails_by_decoding, into_string,
    lemma_agrees_at_start, next_optional, optional, string, unfit, within_decoding, Trail,
};
use crate::models::datapoint::{Datapoint, DatapointView};
use crate::models::icon::Icon;
use crate::value::{Json, ValueTree};
use vstd::prelude::*;

verus! {

/// The weather over a stretch of time: datapoints in the order of their
/// times, with a summary of the whole.
#[derive(Clone, Debug, PartialEq)]
pub struct Datablock {
    /// The datapoints, in the order of their times.
    pub data: Option<Vec<Datapoint>>,
    /// The weather that stands for the whole block.
    pub icon: Option<Icon>,
    /// The block in words.
    pub summary: Option<String>,
}

/// A [`Datablock`] as mathematics.
pub struct DatablockView {
    pub data: Option<Seq<DatapointView>>,
    pub icon: Option<Icon>,
    pub summary: Option<Seq<char>>,
}

impl View for Datablock {
    type V = DatablockView;

    open spec fn view(&self) -> DatablockView {
        DatablockView {
            data: self.data.deep_view(),
            icon: self.icon.deep_view(),
            summary: self.summary.deep_view(),
        }
    }
}

impl DeepView for Datablock {
    type V = DatablockView;

    open spec fn deep_view(&self) -> DatablockView {
        self@
    }
}

impl Datablock {
    /// What a value decodes to: a `Datablock` where it is an object whose every
    /// declared field decodes, and else the failure of the first declared field
    /// that does not. Fields that are not declared are passed over.
    pub open spec fn decoded(j: Json) -> Result<DatablockView, Failure> {
        match j {
            Json::Object(m) => {
                let data = optional(m, "data"@, |j: Json| Datapoint::decoded_all(j));
                let icon = optional(m, "icon"@, |j: Json| Icon::decoded(j));
                let summary = optional(m, "summary"@, |j: Json| string(j));
                if data is Err {
                    Err(data->Err_0)
                } else if icon is Err {
                    Err(icon->Err_0)
                } else if summary is Err {
                    Err(summary->Err_0)
                } else {
                    Ok(
                        DatablockView {
                            data: data->Ok_0,
                            icon: icon->Ok_0,
                            summary: summary->Ok_0,
                        },
                    )
                }
            },
            _ => Err(unfit("object"@, j)),
        }
    }

    /// The place of a field's name in the order in which the fields are
    /// declared.
    #[verifier::opaque]
    closed spec fn rank(name: Seq<char>) -> int {
        if name == "data"@ {
            0
        } else if name == "icon"@ {
            1
        } else if name == "summary"@ {
            2
        } else {
            3
        }
    }

    /// Every declared field has its own place in the order: no two share a name.
    proof fn lemma_rank()
        ensures
            Self::rank("data"@) == 0,
            Self::rank("icon"@) == 1,
            Self::rank("summary"@) == 2,
    {
        reveal(Datablock::rank);
        reveal_strlit("data");
        reveal_strlit("icon");
        reveal_strlit("summary");
        assert("data"@ =~= seq!['d', 'a', 't', 'a']);
        assert("icon"@ =~= seq!['i', 'c', 'o', 'n']);
        assert("summary"@ =~= seq!['s', 'u', 'm', 'm', 'a', 'r', 'y']);
    }

    /// Decodes a `Datablock` from an object, field by field in the order of
    /// their declaration. The first field that fails ends the work, and its
    /// failure is the result.
    pub fn decode(value: ValueTree) -> (r: Result<Datablock, DecodeError>)
        ensures
            outcome(r) == Self::decoded(value@),
    {
        match value {
            ValueTree::Object(mut node) => {
                let ghost trail = Trail {
                    origin: node@,
                    rank: |name: Seq<char>| Self::rank(name),
                };
                proof {
                    Self::lemma_rank();
                    lemma_agrees_at_start(trail);
                }
                let data = next_optional(
                    &mut node,
                    "data",
                    Datapoint::decode_all,
                    Ghost(trail),
                    Ghost(|j: Json| Datapoint::decoded_all(j)),
                )?;
                let icon = next_optional(
                    &mut node,
                    "icon",
                    Icon::decode,
                    Ghost(trail),
                    Ghost(|j: Json| Icon::decoded(j)),
                )?;
                let summary = next_optional(
                    &mut node,
                    "summary",
                    into_string,
                    Ghost(trail),
                    Ghost(|j: Json| string(j)),
                )?;
                Ok(Datablock { data, icon, summary })
            },
            other => Err(DecodeError::TypeMismatch(String::new(), "object".to_owned(), other)),
        }
    }

    /// Decoding a `Datablock` fails only by decoding: with a missing field or a
    /// mismatch, and never with the failure of a collaborator.
    pub proof fn fails_by_decoding()
        ensures
            forall|j: Json| within_decoding(#[trigger] Self::decoded(j)),
            fails_by_decoding(|j: Json| Self::decoded(j)),
    {
        Datapoint::fails_by_decoding();
        Icon::fails_by_decoding();
        coercions_fail_by_decoding();
        assert forall|j: Json| within_decoding(#[trigger] Self::decoded(j)) by {
            if let Json::Object(m) = j {
                field_fails_by_decoding(m, "data"@, |j: Json| Datapoint::decoded_all(j));
                field_fails_by_decoding(m, "icon"@, |j: Json| Icon::decoded(j));
                field_fails_by_decoding(m, "summary"@, |j: Json| string(j));
            }
        }
    }
}

} // verus!
