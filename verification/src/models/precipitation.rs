//! The kinds of precipitation.

use crate::error::{outcome, DecodeError, Failure};
use crate::extract::fails_by_decoding;
use crate::value::{same, Json, ValueTree};
use vstd::prelude::*;

verus! {

/// The kind of precipitation of a datapoint.
#[derive(Copy, Clone, Debug, PartialEq, Eq, Structural, PartialOrd, Ord, Hash)]
pub enum PrecipitationType {
    /// Rain.
    Rain,
    /// Sleet.
    Sleet,
    /// Snow.
    Snow,
}

impl View for PrecipitationType {
    type V = PrecipitationType;

    open spec fn view(&self) -> PrecipitationType {
        *self
    }
}

impl DeepView for PrecipitationType {
    type V = PrecipitationType;

    open spec fn deep_view(&self) -> PrecipitationType {
        *self
    }
}

impl PrecipitationType {
    /// The token of this variant, as the API writes it.
    pub open spec fn token(self) -> Seq<char> {
        match self {
            PrecipitationType::Rain => "rain"@,
            PrecipitationType::Sleet => "sleet"@,
            PrecipitationType::Snow => "snow"@,
        }
    }

    /// The variant that the token `s` stands for: tokens are matched letter for
    /// letter, and a string that is no token stands for none.
    pub open spec fn from_token(s: Seq<char>) -> Option<PrecipitationType> {
        if s == "rain"@ {
            Some(PrecipitationType::Rain)
        } else if s == "sleet"@ {
            Some(PrecipitationType::Sleet)
        } else if s == "snow"@ {
            Some(PrecipitationType::Snow)
        } else {
            None
        }
    }

    /// The name of the field that holds a `PrecipitationType`.
    pub open spec fn label() -> Seq<char> {
        "precipType"@
    }

    /// What is expected where a `PrecipitationType` is decoded: the known tokens.
    pub open spec fn expected() -> Seq<char> {
        "one of rain, sleet, snow"@
    }

    /// What a value decodes to: the variant of its token, where it is a string
    /// and a known token.
    pub open spec fn decoded(j: Json) -> Result<PrecipitationType, Failure> {
        match j {
            Json::String(s) => match Self::from_token(s) {
                Some(v) => Ok(v),
                None => Err(Failure::TypeMismatch(Self::label(), Self::expected(), j)),
            },
            _ => Err(Failure::TypeMismatch(Self::label(), Self::expected(), j)),
        }
    }

    /// The token of this variant.
    pub fn name(&self) -> (r: &'static str)
        ensures
            r@ == self.token(),
    {
        match *self {
            PrecipitationType::Rain => "rain",
            PrecipitationType::Sleet => "sleet",
            PrecipitationType::Snow => "snow",
        }
    }

    /// The variant that the token `s` stands for.
    pub fn from_name(s: &str) -> (r: Option<PrecipitationType>)
        ensures
            r == Self::from_token(s@),
    {
        if same(s, "rain") {
            Some(PrecipitationType::Rain)
        } else if same(s, "sleet") {
            Some(PrecipitationType::Sleet)
        } else if same(s, "snow") {
            Some(PrecipitationType::Snow)
        } else {
            None
        }
    }

    /// Decodes a value that has to be the token of a `PrecipitationType`. Any other
    /// value is a mismatch in the field `precipType`: no variant stands in for an
    /// unknown token.
    pub fn decode(value: ValueTree) -> (r: Result<PrecipitationType, DecodeError>)
        ensures
            outcome(r) == Self::decoded(value@),
    {
        let found = match &value {
            ValueTree::String(s) => Self::from_name(s.as_str()),
            _ => None,
        };
        match found {
            Some(v) => Ok(v),
            None => Err(
                DecodeError::TypeMismatch(
                    "precipType".to_owned(),
                    "one of rain, sleet, snow".to_owned(),
                    value,
                ),
            ),
        }
    }

    /// Decoding the token of a variant gives that variant back.
    pub proof fn round_trip(v: PrecipitationType)
        ensures
            Self::from_token(v.token()) == Some(v),
            Self::decoded(Json::String(v.token())) == Ok::<PrecipitationType, Failure>(v),
    {
        reveal_strlit("rain");
        reveal_strlit("sleet");
        reveal_strlit("snow");
        assert("rain"@ =~= seq!['r', 'a', 'i', 'n']);
        assert("sleet"@ =~= seq!['s', 'l', 'e', 'e', 't']);
        assert("snow"@ =~= seq!['s', 'n', 'o', 'w']);
    }

    /// No two variants share a token.
    pub proof fn tokens_differ(a: PrecipitationType, b: PrecipitationType)
        ensures
            a.token() == b.token() ==> a == b,
    {
        Self::round_trip(a);
        Self::round_trip(b);
    }

    /// A string that is the token of no variant decodes to no variant: it is a
    /// mismatch in the field `precipType` that holds the string as it was found.
    pub proof fn unknown_token(s: Seq<char>)
        requires
            forall|v: PrecipitationType| v.token() != s,
        ensures
            Self::from_token(s).is_none(),
            Self::decoded(Json::String(s)) == Err::<PrecipitationType, Failure>(
                Failure::TypeMismatch(Self::label(), Self::expected(), Json::String(s)),
            ),
    {
        assert(PrecipitationType::Rain.token() != s);
        assert(PrecipitationType::Sleet.token() != s);
        assert(PrecipitationType::Snow.token() != s);
    }

    /// Decoding a `PrecipitationType` fails only by decoding: with a mismatch.
    pub proof fn fails_by_decoding()
        ensures
            fails_by_decoding(|j: Json| Self::decoded(j)),
    {
    }

    /// A string stands for a variant only where it is that variant's token.
    pub proof fn from_token_is_exact(s: Seq<char>, v: PrecipitationType)
        ensures
            Self::from_token(s) == Some(v) <==> s == v.token(),
    {
        Self::round_trip(v);
    }
}

} // verus!
