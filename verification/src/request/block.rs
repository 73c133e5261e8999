//! The blocks of a forecast.

use crate::error::{outcome, DecodeError, Failure};
use crate::extract::fails_by_decoding;
use crate::models::flags::Flags;
use crate::value::{same, Json, ValueTree};
use vstd::prelude::*;

verus! {

/// A block of a forecast, named to have the API leave it out of its answer.
#[derive(Copy, Clone, Debug, PartialEq, Eq, Structural, PartialOrd, Ord, Hash)]
pub enum Block {
    /// The conditions at the time of the request.
    Currently,
    /// The conditions day by day.
    Daily,
    /// Where the data came from.
    Flags,
    /// The conditions hour by hour.
    Hourly,
    /// The conditions minute by minute.
    Minutely,
}

impl View for Block {
    type V = Block;

    open spec fn view(&self) -> Block {
        *self
    }
}

impl DeepView for Block {
    type V = Block;

    open spec fn deep_view(&self) -> Block {
        *self
    }
}

impl Block {
    /// The token of this variant, as the API writes it.
    pub open spec fn token(self) -> Seq<char> {
        match self {
            Block::Currently => "currently"@,
            Block::Daily => "daily"@,
            Block::Flags => "flags"@,
            Block::Hourly => "hourly"@,
            Block::Minutely => "minutely"@,
        }
    }

    /// The variant that the token `s` stands for: tokens are matched letter for
    /// letter, and a string that is no token stands for none.
    pub open spec fn from_token(s: Seq<char>) -> Option<Block> {
        if s == "currently"@ {
            Some(Block::Currently)
        } else if s == "daily"@ {
            Some(Block::Daily)
        } else if s == "flags"@ {
            Some(Block::Flags)
        } else if s == "hourly"@ {
            Some(Block::Hourly)
        } else if s == "minutely"@ {
            Some(Block::Minutely)
        } else {
            None
        }
    }

    /// The name of the field that holds a `Block`.
    pub open spec fn label() -> Seq<char> {
        "exclude"@
    }

    /// What is expected where a `Block` is decoded: the known tokens.
    pub open spec fn expected() -> Seq<char> {
        "one of currently, daily, flags, hourly, minutely"@
    }

    /// What a value decodes to: the variant of its token, where it is a string
    /// and a known token.
    pub open spec fn decoded(j: Json) -> Result<Block, Failure> {
        match j {
            Json::String(s) => match Self::from_token(s) {
                Some(v) => Ok(v),
                None => Err(Failure::TypeMismatch(Self::label(), Self::expected(), j)),
            },
            _ => Err(Failure::TypeMismatch(Self::label(), Self::expected(), j)),
        }
    }

    /// The token of this variant.
    pub fn name(&self) -> (r: &'static str)
        ensures
            r@ == self.token(),
    {
        match *self {
            Block::Currently => "currently",
            Block::Daily => "daily",
            Block::Flags => "flags",
            Block::Hourly => "hourly",
            Block::Minutely => "minutely",
        }
    }

    /// The variant that the token `s` stands for.
    pub fn from_name(s: &str) -> (r: Option<Block>)
        ensures
            r == Self::from_token(s@),
    {
        if same(s, "currently") {
            Some(Block::Currently)
        } else if same(s, "daily") {
            Some(Block::Daily)
        } else if same(s, "flags") {
            Some(Block::Flags)
        } else if same(s, "hourly") {
            Some(Block::Hourly)
        } else if same(s, "minutely") {
            Some(Block::Minutely)
        } else {
            None
        }
    }

    /// Decodes a value that has to be the token of a `Block`. Any other
    /// value is a mismatch in the field `exclude`: no variant stands in for an
    /// unknown token.
    pub fn decode(value: ValueTree) -> (r: Result<Block, DecodeError>)
        ensures
            outcome(r) == Self::decoded(value@),
    {
        let found = match &value {
            ValueTree::String(s) => Self::from_name(s.as_str()),
            _ => None,
        };
        match found {
            Some(v) => Ok(v),
            None => Err(
                DecodeError::TypeMismatch(
                    "exclude".to_owned(),
                    "one of currently, daily, flags, hourly, minutely".to_owned(),
                    value,
                ),
            ),
        }
    }

    /// Decoding the token of a variant gives that variant back.
    pub proof fn round_trip(v: Block)
        ensures
            Self::from_token(v.token()) == Some(v),
            Self::decoded(Json::String(v.token())) == Ok::<Block, Failure>(v),
    {
        reveal_strlit("currently");
        reveal_strlit("daily");
        reveal_strlit("flags");
        reveal_strlit("hourly");
        reveal_strlit("minutely");
        assert("currently"@ =~= seq!['c', 'u', 'r', 'r', 'e', 'n', 't', 'l', 'y']);
        assert("daily"@ =~= seq!['d', 'a', 'i', 'l', 'y']);
        assert("flags"@ =~= seq!['f', 'l', 'a', 'g', 's']);
        assert("hourly"@ =~= seq!['h', 'o', 'u', 'r', 'l', 'y']);
        assert("minutely"@ =~= seq!['m', 'i', 'n', 'u', 't', 'e', 'l', 'y']);
    }

    /// No two variants share a token.
    pub proof fn tokens_differ(a: Block, b: Block)
        ensures
            a.token() == b.token() ==> a == b,
    {
        Self::round_trip(a);
        Self::round_trip(b);
    }

    /// A string that is the token of no variant decodes to no variant: it is a
    /// mismatch in the field `exclude` that holds the string as it was found.
    pub proof fn unknown_token(s: Seq<char>)
        requires
            forall|v: Block| v.token() != s,
        ensures
            Self::from_token(s).is_none(),
            Self::decoded(Json::String(s)) == Err::<Block, Failure>(
                Failure::TypeMismatch(Self::label(), Self::expected(), Json::String(s)),
            ),
    {
        assert(Block::Currently.token() != s);
        assert(Block::Daily.token() != s);
        assert(Block::Flags.token() != s);
        assert(Block::Hourly.token() != s);
        assert(Block::Minutely.token() != s);
    }

    /// Decoding a `Block` fails only by decoding: with a mismatch.
    pub proof fn fails_by_decoding()
        ensures
            fails_by_decoding(|j: Json| Self::decoded(j)),
    {
    }

    /// A string stands for a variant only where it is that variant's token.
    pub proof fn from_token_is_exact(s: Seq<char>, v: Block)
        ensures
            Self::from_token(s) == Some(v) <==> s == v.token(),
    {
        Self::round_trip(v);
    }
}

} // verus!
