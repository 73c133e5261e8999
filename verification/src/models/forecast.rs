//! The forecast for one place.

use crate::error::{outcome, DecodeError, Failure};
use crate::extract::{
    absent_field, coercions_fail_by_decoding, fails_by_decoding, field_fails_by_decoding,
    into_number, into_string, lemma_agrees_at_start, next_optional, next_required, number, optional,
    required, string, unfit, within_decoding, Trail,
};
use crate::models::alert::{Alert, AlertView};
use crate::models::datablock::{Datablock, DatablockView};
use crate::models::datapoint::{Datapoint, DatapointView};
use crate::models::flags::{Flags, FlagsView};
use crate::value::{field, Json, Members, Number, ValueTree};
use vstd::prelude::*;

verus! {

/// The answer of the API for one place.
///
/// Latitude, longitude and time zone are always there. A block is missing
/// where the request left it out or the API has nothing for it.
#[derive(Clone, Debug, PartialEq)]
pub struct Forecast {
    /// The warnings in force; none where the field is not there.
    pub alerts: Vec<Alert>,
    /// The conditions at the time of the request.
    pub currently: Option<Datapoint>,
    /// The conditions day by day.
    pub daily: Option<Datablock>,
    /// Where the data came from.
    pub flags: Option<Flags>,
    /// The conditions hour by hour.
    pub hourly: Option<Datablock>,
    /// The latitude of the place.
    pub latitude: Number,
    /// The longitude of the place.
    pub longitude: Number,
    /// The conditions minute by minute.
    pub minutely: Option<Datablock>,
    /// The offset of the place's time from UTC, in hours.
    pub offset: Option<Number>,
    /// The name of the place's time zone.
    pub timezone: String,
}

/// A [`Forecast`] as mathematics.
pub struct ForecastView {
    pub alerts: Seq<AlertView>,
    pub currently: Option<DatapointView>,
    pub daily: Option<DatablockView>,
    pub flags: Option<FlagsView>,
    pub hourly: Option<DatablockView>,
    pub latitude: Number,
    pub longitude: Number,
    pub minutely: Option<DatablockView>,
    pub offset: Option<Number>,
    pub timezone: Seq<char>,
}

impl View for Forecast {
    type V = ForecastView;

    open spec fn view(&self) -> ForecastView {
        ForecastView {
            alerts: self.alerts.deep_view(),
            currently: self.currently.deep_view(),
            daily: self.daily.deep_view(),
            flags: self.flags.deep_view(),
            hourly: self.hourly.deep_view(),
            latitude: self.latitude.deep_view(),
            longitude: self.longitude.deep_view(),
            minutely: self.minutely.deep_view(),
            offset: self.offset.deep_view(),
            timezone: self.timezone.deep_view(),
        }
    }
}

impl DeepView for Forecast {
    type V = ForecastView;

    open spec fn deep_view(&self) -> ForecastView {
        self@
    }
}

impl Forecast {
    /// What a value decodes to: a `Forecast` where it is an object whose every
    /// declared field decodes, and else the failure of the first declared field
    /// that does not. Fields that are not declared are passed over.
    pub open spec fn decoded(j: Json) -> Result<ForecastView, Failure> {
        match j {
            Json::Object(m) => {
                let alerts = optional(m, "alerts"@, |j: Json| Alert::decoded_all(j));
                let currently = optional(m, "currently"@, |j: Json| Datapoint::decoded(j));
                let daily = optional(m, "daily"@, |j: Json| Datablock::decoded(j));
                let flags = optional(m, "flags"@, |j: Json| Flags::decoded(j));
                let hourly = optional(m, "hourly"@, |j: Json| Datablock::decoded(j));
                let latitude = required(m, "latitude"@, |j: Json| number(j));
                let longitude = required(m, "longitude"@, |j: Json| number(j));
                let minutely = optional(m, "minutely"@, |j: Json| Datablock::decoded(j));
                let offset = optional(m, "offset"@, |j: Json| number(j));
                let timezone = required(m, "timezone"@, |j: Json| string(j));
                if alerts is Err {
                    Err(alerts->Err_0)
                } else if currently is Err {
                    Err(currently->Err_0)
                } else if daily is Err {
                    Err(daily->Err_0)
                } else if flags is Err {
                    Err(flags->Err_0)
                } else if hourly is Err {
                    Err(hourly->Err_0)
                } else if latitude is Err {
                    Err(latitude->Err_0)
                } else if longitude is Err {
                    Err(longitude->Err_0)
                } else if minutely is Err {
                    Err(minutely->Err_0)
                } else if offset is Err {
                    Err(offset->Err_0)
                } else if timezone is Err {
                    Err(timezone->Err_0)
                } else {
                    Ok(
                        ForecastView {
                            alerts: match alerts->Ok_0 {
                                Some(x) => x,
                                None => Seq::empty(),
                            },
                            currently: currently->Ok_0,
                            daily: daily->Ok_0,
                            flags: flags->Ok_0,
                            hourly: hourly->Ok_0,
                            latitude: latitude->Ok_0,
                            longitude: longitude->Ok_0,
                            minutely: minutely->Ok_0,
                            offset: offset->Ok_0,
                            timezone: timezone->Ok_0,
                        },
                    )
                }
            },
            _ => Err(unfit("object"@, j)),
        }
    }

    /// The place of a field's name in the order in which the fields are
    /// declared.
    #[verifier::opaque]
    closed spec fn rank(name: Seq<char>) -> int {
        if name == "alerts"@ {
            0
        } else if name == "currently"@ {
            1
        } else if name == "daily"@ {
            2
        } else if name == "flags"@ {
            3
        } else if name == "hourly"@ {
            4
        } else if name == "latitude"@ {
            5
        } else if name == "longitude"@ {
            6
        } else if name == "minutely"@ {
            7
        } else if name == "offset"@ {
            8
        } else if name == "timezone"@ {
            9
        } else {
            10
        }
    }

    /// Every declared field has its own place in the order: no two share a name.
    proof fn lemma_rank()
        ensures
            Self::rank("alerts"@) == 0,
            Self::rank("currently"@) == 1,
            Self::rank("daily"@) == 2,
            Self::rank("flags"@) == 3,
            Self::rank("hourly"@) == 4,
            Self::rank("latitude"@) == 5,
            Self::rank("longitude"@) == 6,
            Self::rank("minutely"@) == 7,
            Self::rank("offset"@) == 8,
            Self::rank("timezone"@) == 9,
    {
        reveal(Forecast::rank);
        reveal_strlit("alerts");
        reveal_strlit("currently");
        reveal_strlit("daily");
        reveal_strlit("flags");
        reveal_strlit("hourly");
        reveal_strlit("latitude");
        reveal_strlit("longitude");
        reveal_strlit("minutely");
        reveal_strlit("offset");
        reveal_strlit("timezone");
        assert("alerts"@ =~= seq!['a', 'l', 'e', 'r', 't', 's']);
        assert("currently"@ =~= seq!['c', 'u', 'r', 'r', 'e', 'n', 't', 'l', 'y']);
        assert("daily"@ =~= seq!['d', 'a', 'i', 'l', 'y']);
        assert("flags"@ =~= seq!['f', 'l', 'a', 'g', 's']);
        assert("hourly"@ =~= seq!['h', 'o', 'u', 'r', 'l', 'y']);
        assert("latitude"@ =~= seq!['l', 'a', 't', 'i', 't', 'u', 'd', 'e']);
        assert("longitude"@ =~= seq!['l', 'o', 'n', 'g', 'i', 't', 'u', 'd', 'e']);
        assert("minutely"@ =~= seq!['m', 'i', 'n', 'u', 't', 'e', 'l', 'y']);
        assert("offset"@ =~= seq!['o', 'f', 'f', 's', 'e', 't']);
        assert("timezone"@ =~= seq!['t', 'i', 'm', 'e', 'z', 'o', 'n', 'e']);
    }

    /// Decodes a `Forecast` from an object, field by field in the order of
    /// their declaration. The first field that fails ends the work, and its
    /// failure is the result.
    pub fn decode(value: ValueTree) -> (r: Result<Forecast, DecodeError>)
        ensures
            outcome(r) == Self::decoded(value@),
    {
        match value {
            ValueTree::Object(mut node) => {
                let ghost trail = Trail {
                    origin: node@,
                    rank: |name: Seq<char>| Self::rank(name),
                };
                proof {
                    Self::lemma_rank();
                    lemma_agrees_at_start(trail);
                }
                let alerts = next_optional(
                    &mut node,
                    "alerts",
                    Alert::decode_all,
                    Ghost(trail),
                    Ghost(|j: Json| Alert::decoded_all(j)),
                )?;
                let currently = next_optional(
                    &mut node,
                    "currently",
                    Datapoint::decode,
                    Ghost(trail),
                    Ghost(|j: Json| Datapoint::decoded(j)),
                )?;
                let daily = next_optional(
                    &mut node,
                    "daily",
                    Datablock::decode,
                    Ghost(trail),
                    Ghost(|j: Json| Datablock::decoded(j)),
                )?;
                let flags = next_optional(
                    &mut node,
                    "flags",
                    Flags::decode,
                    Ghost(trail),
                    Ghost(|j: Json| Flags::decoded(j)),
                )?;
                let hourly = next_optional(
                    &mut node,
                    "hourly",
                    Datablock::decode,
                    Ghost(trail),
                    Ghost(|j: Json| Datablock::decoded(j)),
                )?;
                let latitude = next_required(
                    &mut node,
                    "latitude",
                    into_number,
                    Ghost(trail),
                    Ghost(|j: Json| number(j)),
                )?;
                let longitude = next_required(
                    &mut node,
                    "longitude",
                    into_number,
                    Ghost(trail),
                    Ghost(|j: Json| number(j)),
                )?;
                let minutely = next_optional(
                    &mut node,
                    "minutely",
                    Datablock::decode,
                    Ghost(trail),
                    Ghost(|j: Json| Datablock::decoded(j)),
                )?;
                let offset = next_optional(
                    &mut node,
                    "offset",
                    into_number,
                    Ghost(trail),
                    Ghost(|j: Json| number(j)),
                )?;
                let timezone = next_required(
                    &mut node,
                    "timezone",
                    into_string,
                    Ghost(trail),
                    Ghost(|j: Json| string(j)),
                )?;
                let alerts = match alerts {
                    Some(x) => x,
                    None => {
                        let none: Vec<Alert> = Vec::new();
                        assert(none.deep_view() =~= Seq::empty());
                        none
                    },
                };
                Ok(
                    Forecast {
                        alerts,
                        currently,
                        daily,
                        flags,
                        hourly,
                        latitude,
                        longitude,
                        minutely,
                        offset,
                        timezone,
                    },
                )
            },
            other => Err(DecodeError::TypeMismatch(String::new(), "object".to_owned(), other)),
        }
    }

    /// Decoding a `Forecast` fails only by decoding: with a missing field or a
    /// mismatch, and never with the failure of a collaborator.
    pub proof fn fails_by_decoding()
        ensures
            forall|j: Json| within_decoding(#[trigger] Self::decoded(j)),
            fails_by_decoding(|j: Json| Self::decoded(j)),
    {
        Alert::fails_by_decoding();
        Datapoint::fails_by_decoding();
        Datablock::fails_by_decoding();
        Flags::fails_by_decoding();
        coercions_fail_by_decoding();
        assert forall|j: Json| within_decoding(#[trigger] Self::decoded(j)) by {
            if let Json::Object(m) = j {
                field_fails_by_decoding(m, "alerts"@, |j: Json| Alert::decoded_all(j));
                field_fails_by_decoding(m, "currently"@, |j: Json| Datapoint::decoded(j));
                field_fails_by_decoding(m, "daily"@, |j: Json| Datablock::decoded(j));
                field_fails_by_decoding(m, "flags"@, |j: Json| Flags::decoded(j));
                field_fails_by_decoding(m, "hourly"@, |j: Json| Datablock::decoded(j));
                field_fails_by_decoding(m, "latitude"@, |j: Json| number(j));
                field_fails_by_decoding(m, "longitude"@, |j: Json| number(j));
                field_fails_by_decoding(m, "minutely"@, |j: Json| Datablock::decoded(j));
                field_fails_by_decoding(m, "offset"@, |j: Json| number(j));
                field_fails_by_decoding(m, "timezone"@, |j: Json| string(j));
            }
        }
    }
}

impl Forecast {
    /// A forecast needs its latitude: an object without the field `latitude`
    /// does not decode, and where the fields declared before it decode, the
    /// failure is that the latitude is missing and no other.
    pub proof fn latitude_is_required(m: Members)
        requires
            field(m, "latitude"@).is_none(),
        ensures
            Self::decoded(Json::Object(m)) is Err,
            ({
                &&& optional(m, "alerts"@, |j: Json| Alert::decoded_all(j)) is Ok
                &&& optional(m, "currently"@, |j: Json| Datapoint::decoded(j)) is Ok
                &&& optional(m, "daily"@, |j: Json| Datablock::decoded(j)) is Ok
                &&& optional(m, "flags"@, |j: Json| Flags::decoded(j)) is Ok
                &&& optional(m, "hourly"@, |j: Json| Datablock::decoded(j)) is Ok
            }) ==> Self::decoded(Json::Object(m)) == Err::<ForecastView, Failure>(
                Failure::Missing("latitude"@),
            ),
    {
        absent_field(m, "latitude"@, |j: Json| number(j));
    }
}

} // verus!
