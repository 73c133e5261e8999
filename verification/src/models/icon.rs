//! The weather at a glance.

use crate::error::{outcome, DecodeError, Failure};
use crate::extract::fails_by_decoding;
use crate::value::{same, Json, ValueTree};
use vstd::prelude::*;

verus! {

/// The weather at a glance, fit to be shown as a symbol.
#[derive(Copy, Clone, Debug, PartialEq, Eq, Structural, PartialOrd, Ord, Hash)]
pub enum Icon {
    /// The sky is clear, by day.
    ClearDay,
    /// The sky is clear, by night.
    ClearNight,
    /// The sky is overcast.
    Cloudy,
    /// Fog.
    Fog,
    /// Hail.
    Hail,
    /// The sky is partly clouded, by day.
    PartlyCloudyDay,
    /// The sky is partly clouded, by night.
    PartlyCloudyNight,
    /// Rain.
    Rain,
    /// Sleet.
    Sleet,
    /// Snow.
    Snow,
    /// A thunderstorm.
    Thunderstorm,
    /// A tornado.
    Tornado,
    /// Wind.
    Wind,
}

impl View for Icon {
    type V = Icon;

    open spec fn view(&self) -> Icon {
        *self
    }
}

impl DeepView for Icon {
    type V = Icon;

    open spec fn deep_view(&self) -> Icon {
        *self
    }
}

impl Icon {
    /// The token of this variant, as the API writes it.
    pub open spec fn token(self) -> Seq<char> {
        match self {
            Icon::ClearDay => "clear-day"@,
            Icon::ClearNight => "clear-night"@,
            Icon::Cloudy => "cloudy"@,
            Icon::Fog => "fog"@,
            Icon::Hail => "hail"@,
            Icon::PartlyCloudyDay => "partly-cloudy-day"@,
            Icon::PartlyCloudyNight => "partly-cloudy-night"@,
            Icon::Rain => "rain"@,
            Icon::Sleet => "sleet"@,
            Icon::Snow => "snow"@,
            Icon::Thunderstorm => "thunderstorm"@,
            Icon::Tornado => "tornado"@,
            Icon::Wind => "wind"@,
        }
    }

    /// The variant that the token `s` stands for: tokens are matched letter for
    /// letter, and a string that is no token stands for none.
    pub open spec fn from_token(s: Seq<char>) -> Option<Icon> {
        if s == "clear-day"@ {
            Some(Icon::ClearDay)
        } else if s == "clear-night"@ {
            Some(Icon::ClearNight)
        } else if s == "cloudy"@ {
            Some(Icon::Cloudy)
        } else if s == "fog"@ {
            Some(Icon::Fog)
        } else if s == "hail"@ {
            Some(Icon::Hail)
        } else if s == "partly-cloudy-day"@ {
            Some(Icon::PartlyCloudyDay)
        } else if s == "partly-cloudy-night"@ {
            Some(Icon::PartlyCloudyNight)
        } else if s == "rain"@ {
            Some(Icon::Rain)
        } else if s == "sleet"@ {
            Some(Icon::Sleet)
        } else if s == "snow"@ {
            Some(Icon::Snow)
        } else if s == "thunderstorm"@ {
            Some(Icon::Thunderstorm)
        } else if s == "tornado"@ {
            Some(Icon::Tornado)
        } else if s == "wind"@ {
            Some(Icon::Wind)
        } else {
            None
        }
    }

    /// The name of the field that holds an `Icon`.
    pub open spec fn label() -> Seq<char> {
        "icon"@
    }

    /// What is expected where an `Icon` is decoded: the known tokens.
    pub open spec fn expected() -> Seq<char> {
        "one of clear-day, clear-night, cloudy, fog, hail, partly-cloudy-day, partly-cloudy-night, rain, sleet, snow, thunderstorm, tornado, wind"@
    }

    /// What a value decodes to: the variant of its token, where it is a string
    /// and a known token.
    pub open spec fn decoded(j: Json) -> Result<Icon, Failure> {
        match j {
            Json::String(s) => match Self::from_token(s) {
                Some(v) => Ok(v),
                None => Err(Failure::TypeMismatch(Self::label(), Self::expected(), j)),
            },
            _ => Err(Failure::TypeMismatch(Self::label(), Self::expected(), j)),
        }
    }

    /// The token of this variant.
    pub fn name(&self) -> (r: &'static str)
        ensures
            r@ == self.token(),
    {
        match *self {
            Icon::ClearDay => "clear-day",
            Icon::ClearNight => "clear-night",
            Icon::Cloudy => "cloudy",
            Icon::Fog => "fog",
            Icon::Hail => "hail",
            Icon::PartlyCloudyDay => "partly-cloudy-day",
            Icon::PartlyCloudyNight => "partly-cloudy-night",
            Icon::Rain => "rain",
            Icon::Sleet => "sleet",
            Icon::Snow => "snow",
            Icon::Thunderstorm => "thunderstorm",
            Icon::Tornado => "tornado",
            Icon::Wind => "wind",
        }
    }

    /// The variant that the token `s` stands for.
    pub fn from_name(s: &str) -> (r: Option<Icon>)
        ensures
            r == Self::from_token(s@),
    {
        if same(s, "clear-day") {
            Some(Icon::ClearDay)
        } else if same(s, "clear-night") {
            Some(Icon::ClearNight)
        } else if same(s, "cloudy") {
            Some(Icon::Cloudy)
        } else if same(s, "fog") {
            Some(Icon::Fog)
        } else if same(s, "hail") {
            Some(Icon::Hail)
        } else if same(s, "partly-cloudy-day") {
            Some(Icon::PartlyCloudyDay)
        } else if same(s, "partly-cloudy-night") {
            Some(Icon::PartlyCloudyNight)
        } else if same(s, "rain") {
            Some(Icon::Rain)
        } else if same(s, "sleet") {
            Some(Icon::Sleet)
        } else if same(s, "snow") {
            Some(Icon::Snow)
        } else if same(s, "thunderstorm") {
            Some(Icon::Thunderstorm)
        } else if same(s, "tornado") {
            Some(Icon::Tornado)
        } else if same(s, "wind") {
            Some(Icon::Wind)
        } else {
            None
        }
    }

    /// Decodes a value that has to be the token of an `Icon`. Any other
    /// value is a mismatch in the field `icon`: no variant stands in for an
    /// unknown token.
    pub fn decode(value: ValueTree) -> (r: Result<Icon, DecodeError>)
        ensures
            outcome(r) == Self::decoded(value@),
    {
        let found = match &value {
            ValueTree::String(s) => Self::from_name(s.as_str()),
            _ => None,
        };
        match found {
            Some(v) => Ok(v),
            None => Err(
                DecodeError::TypeMismatch(
                    "icon".to_owned(),
                    "one of clear-day, clear-night, cloudy, fog, hail, partly-cloudy-day, partly-cloudy-night, rain, sleet, snow, thunderstorm, tornado, wind".to_owned(),
                    value,
                ),
            ),
        }
    }

    /// Decoding the token of a variant gives that variant back.
    pub proof fn round_trip(v: Icon)
        ensures
            Self::from_token(v.token()) == Some(v),
            Self::decoded(Json::String(v.token())) == Ok::<Icon, Failure>(v),
    {
        reveal_strlit("clear-day");
        reveal_strlit("clear-night");
        reveal_strlit("cloudy");
        reveal_strlit("fog");
        reveal_strlit("hail");
        reveal_strlit("partly-cloudy-day");
        reveal_strlit("partly-cloudy-night");
        reveal_strlit("rain");
        reveal_strlit("sleet");
        reveal_strlit("snow");
        reveal_strlit("thunderstorm");
        reveal_strlit("tornado");
        reveal_strlit("wind");
        assert("clear-day"@ =~= seq!['c', 'l', 'e', 'a', 'r', '-', 'd', 'a', 'y']);
        assert("clear-night"@ =~= seq!['c', 'l', 'e', 'a', 'r', '-', 'n', 'i', 'g', 'h', 't']);
        assert("cloudy"@ =~= seq!['c', 'l', 'o', 'u', 'd', 'y']);
        assert("fog"@ =~= seq!['f', 'o', 'g']);
        assert("hail"@ =~= seq!['h', 'a', 'i', 'l']);
        assert("partly-cloudy-day"@ =~= seq![
            'p', 'a', 'r', 't', 'l', 'y', '-', 'c', 'l', 'o', 'u', 'd', 'y', '-', 'd', 'a', 'y',
        ]);
        assert("partly-cloudy-night"@ =~= seq![
            'p', 'a', 'r', 't', 'l', 'y', '-', 'c', 'l', 'o', 'u', 'd', 'y', '-', 'n', 'i', 'g',
            'h', 't',
        ]);
        assert("rain"@ =~= seq!['r', 'a', 'i', 'n']);
        assert("sleet"@ =~= seq!['s', 'l', 'e', 'e', 't']);
        assert("snow"@ =~= seq!['s', 'n', 'o', 'w']);
        assert("thunderstorm"@ =~= seq![
            't', 'h', 'u', 'n', 'd', 'e', 'r', 's', 't', 'o', 'r', 'm',
        ]);
        assert("tornado"@ =~= seq!['t', 'o', 'r', 'n', 'a', 'd', 'o']);
        assert("wind"@ =~= seq!['w', 'i', 'n', 'd']);
    }

    /// No two variants share a token.
    pub proof fn tokens_differ(a: Icon, b: Icon)
        ensures
            a.token() == b.token() ==> a == b,
    {
        Self::round_trip(a);
        Self::round_trip(b);
    }

    /// A string that is the token of no variant decodes to no variant: it is a
    /// mismatch in the field `icon` that holds the string as it was found.
    pub proof fn unknown_token(s: Seq<char>)
        requires
            forall|v: Icon| v.token() != s,
        ensures
            Self::from_token(s).is_none(),
            Self::decoded(Json::String(s)) == Err::<Icon, Failure>(
                Failure::TypeMismatch(Self::label(), Self::expected(), Json::String(s)),
            ),
    {
        assert(Icon::ClearDay.token() != s);
        assert(Icon::ClearNight.token() != s);
        assert(Icon::Cloudy.token() != s);
        assert(Icon::Fog.token() != s);
        assert(Icon::Hail.token() != s);
        assert(Icon::PartlyCloudyDay.token() != s);
        assert(Icon::PartlyCloudyNight.token() != s);
        assert(Icon::Rain.token() != s);
        assert(Icon::Sleet.token() != s);
        assert(Icon::Snow.token() != s);
        assert(Icon::Thunderstorm.token() != s);
        assert(Icon::Tornado.token() != s);
        assert(Icon::Wind.token() != s);
    }

    /// Decoding an `Icon` fails only by decoding: with a mismatch.
    pub proof fn fails_by_decoding()
        ensures
            fails_by_decoding(|j: Json| Self::decoded(j)),
    {
    }

    /// A string stands for a variant only where it is that variant's token.
    pub proof fn from_token_is_exact(s: Seq<char>, v: Icon)
        ensures
            Self::from_token(s) == Some(v) <==> s == v.token(),
    {
        Self::round_trip(v);
    }
}

} // verus!
