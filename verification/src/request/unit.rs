//! The units of an answer.

use crate::error::{outcome, DecodeError, Failure};
use crate::extract::fails_by_decoding;
use crate::value::{same, Json, ValueTree};
use vstd::prelude::*;

verus! {

/// The units in which the API answers. Imperial units are what it uses
/// where none are asked for.
#[derive(Copy, Clone, Debug, PartialEq, Eq, Structural, PartialOrd, Ord, Hash)]
pub enum Unit {
    /// Units chosen by the API from the location.
    Auto,
    /// SI, with wind speed in kilometres per hour.
    Ca,
    /// SI units.
    Si,
    /// SI, with distances in miles and wind speed in miles per hour.
    Uk2,
    /// Imperial units.
    Us,
}

impl View for Unit {
    type V = Unit;

    open spec fn view(&self) -> Unit {
        *self
    }
}

impl DeepView for Unit {
    type V = Unit;

    open spec fn deep_view(&self) -> Unit {
        *self
    }
}

impl Unit {
    /// The token of this variant, as the API writes it.
    pub open spec fn token(self) -> Seq<char> {
        match self {
            Unit::Auto => "auto"@,
            Unit::Ca => "ca"@,
            Unit::Si => "si"@,
            Unit::Uk2 => "uk2"@,
            Unit::Us => "us"@,
        }
    }

    /// The variant that the token `s` stands for: tokens are matched letter for
    /// letter, and a string that is no token stands for none.
    pub open spec fn from_token(s: Seq<char>) -> Option<Unit> {
        if s == "auto"@ {
            Some(Unit::Auto)
        } else if s == "ca"@ {
            Some(Unit::Ca)
        } else if s == "si"@ {
            Some(Unit::Si)
        } else if s == "uk2"@ {
            Some(Unit::Uk2)
        } else if s == "us"@ {
            Some(Unit::Us)
        } else {
            None
        }
    }

    /// The name of the field that holds a `Unit`.
    pub open spec fn label() -> Seq<char> {
        "units"@
    }

    /// What is expected where a `Unit` is decoded: the known tokens.
    pub open spec fn expected() -> Seq<char> {
        "one of auto, ca, si, uk2, us"@
    }

    /// What a value decodes to: the variant of its token, where it is a string
    /// and a known token.
    pub open spec fn decoded(j: Json) -> Result<Unit, Failure> {
        match j {
            Json::String(s) => match Self::from_token(s) {
                Some(v) => Ok(v),
                None => Err(Failure::TypeMismatch(Self::label(), Self::expected(), j)),
            },
            _ => Err(Failure::TypeMismatch(Self::label(), Self::expected(), j)),
        }
    }

    /// The token of this variant.
    pub fn name(&self) -> (r: &'static str)
        ensures
            r@ == self.token(),
    {
        match *self {
            Unit::Auto => "auto",
            Unit::Ca => "ca",
            Unit::Si => "si",
            Unit::Uk2 => "uk2",
            Unit::Us => "us",
        }
    }

    /// The variant that the token `s` stands for.
    pub fn from_name(s: &str) -> (r: Option<Unit>)
        ensures
            r == Self::from_token(s@),
    {
        if same(s, "auto") {
            Some(Unit::Auto)
        } else if same(s, "ca") {
            Some(Unit::Ca)
        } else if same(s, "si") {
            Some(Unit::Si)
        } else if same(s, "uk2") {
            Some(Unit::Uk2)
        } else if same(s, "us") {
            Some(Unit::Us)
        } else {
            None
        }
    }

    /// Decodes a value that has to be the token of a `Unit`. Any other
    /// value is a mismatch in the field `units`: no variant stands in for an
    /// unknown token.
    pub fn decode(value: ValueTree) -> (r: Result<Unit, DecodeError>)
        ensures
            outcome(r) == Self::decoded(value@),
    {
        let found = match &value {
            ValueTree::String(s) => Self::from_name(s.as_str()),
            _ => None,
        };
        match found {
            Some(v) => Ok(v),
            None => Err(
                DecodeError::TypeMismatch(
                    "units".to_owned(),
                    "one of auto, ca, si, uk2, us".to_owned(),
                    value,
                ),
            ),
        }
    }

    /// Decoding the token of a variant gives that variant back.
    pub proof fn round_trip(v: Unit)
        ensures
            Self::from_token(v.token()) == Some(v),
            Self::decoded(Json::String(v.token())) == Ok::<Unit, Failure>(v),
    {
        reveal_strlit("auto");
        reveal_strlit("ca");
        reveal_strlit("si");
        reveal_strlit("uk2");
        reveal_strlit("us");
        assert("auto"@ =~= seq!['a', 'u', 't', 'o']);
        assert("ca"@ =~= seq!['c', 'a']);
        assert("si"@ =~= seq!['s', 'i']);
        assert("uk2"@ =~= seq!['u', 'k', '2']);
        assert("us"@ =~= seq!['u', 's']);
    }

    /// No two variants share a token.
    pub proof fn tokens_differ(a: Unit, b: Unit)
        ensures
            a.token() == b.token() ==> a == b,
    {
        Self::round_trip(a);
        Self::round_trip(b);
    }

    /// A string that is the token of no variant decodes to no variant: it is a
    /// mismatch in the field `units` that holds the string as it was found.
    pub proof fn unknown_token(s: Seq<char>)
        requires
            forall|v: Unit| v.token() != s,
        ensures
            Self::from_token(s).is_none(),
            Self::decoded(Json::String(s)) == Err::<Unit, Failure>(
                Failure::TypeMismatch(Self::label(), Self::expected(), Json::String(s)),
            ),
    {
        assert(Unit::Auto.token() != s);
        assert(Unit::Ca.token() != s);
        assert(Unit::Si.token() != s);
        assert(Unit::Uk2.token() != s);
        assert(Unit::Us.token() != s);
    }

    /// Decoding a `Unit` fails only by decoding: with a mismatch.
    pub proof fn fails_by_decoding()
        ensures
            fails_by_decoding(|j: Json| Self::decoded(j)),
    {
    }

    /// A string stands for a variant only where it is that variant's token.
    pub proof fn from_token_is_exact(s: Seq<char>, v: Unit)
        ensures
            Self::from_token(s) == Some(v) <==> s == v.token(),
    {
        Self::round_trip(v);
    }
}

} // verus!
