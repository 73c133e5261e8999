//! The weather at one time.

use crate::error::{outcome, DecodeError, Failure};
use crate::extract::{
    absent_field, agrees, array_of, coercions_fail_by_decoding, elements, elements_fail_by_decoding,
    fails_by_decoding, field_fails_by_decoding, integer, into_number, into_string, into_u64,
    lemma_agrees_at_start, next_optional, next_required, number, optional, required, string, unfit,
    within_decoding, Trail,
};
use crate::models::icon::Icon;
use crate::models::precipitation::PrecipitationType;
use crate::value::{field, Json, Members, Number, Object, ValueTree};
use vstd::prelude::*;

verus! {

/// Takes the next field of a datapoint out of `node`, one that may hold a
/// number.
fn optional_number(node: &mut Object, name: &str, Ghost(trail): Ghost<Trail>) -> (r: Result<
    Option<Number>,
    DecodeError,
>)
    requires
        agrees(old(node)@, trail, (trail.rank)(name@)),
    ensures
        agrees(final(node)@, trail, (trail.rank)(name@) + 1),
        outcome(r) == optional(trail.origin, name@, |j: Json| number(j)),
{
    next_optional(node, name, into_number, Ghost(trail), Ghost(|j: Json| number(j)))
}

/// Takes the next field of a datapoint out of `node`, one that may hold a
/// time.
fn optional_integer(node: &mut Object, name: &str, Ghost(trail): Ghost<Trail>) -> (r: Result<
    Option<u64>,
    DecodeError,
>)
    requires
        agrees(old(node)@, trail, (trail.rank)(name@)),
    ensures
        agrees(final(node)@, trail, (trail.rank)(name@) + 1),
        outcome(r) == optional(trail.origin, name@, |j: Json| integer(j)),
{
    next_optional(node, name, into_u64, Ghost(trail), Ghost(|j: Json| integer(j)))
}

/// The weather at one time: what was measured or is foreseen.
///
/// Only the time is always there. Every other field is missing where it is
/// not known for the place and time, which is not the same as zero. A field
/// whose name ends in `_error` is the standard deviation of the field that it
/// is named after.
#[derive(Clone, Debug, PartialEq)]
pub struct Datapoint {
    pub apparent_temperature_max_time: Option<u64>,
    pub apparent_temperature_max: Option<Number>,
    pub apparent_temperature_min_time: Option<u64>,
    pub apparent_temperature_min: Option<Number>,
    pub apparent_temperature: Option<Number>,
    pub cloud_cover_error: Option<Number>,
    pub cloud_cover: Option<Number>,
    pub dew_point_error: Option<Number>,
    pub dew_point: Option<Number>,
    pub humidity_error: Option<Number>,
    pub humidity: Option<Number>,
    pub icon: Option<Icon>,
    pub moon_phase: Option<Number>,
    pub nearest_storm_bearing: Option<Number>,
    pub nearest_storm_distance: Option<Number>,
    pub ozone_error: Option<Number>,
    pub ozone: Option<Number>,
    pub precip_accumulation_error: Option<Number>,
    pub precip_accumulation: Option<Number>,
    pub precip_intensity_error: Option<Number>,
    pub precip_intensity_max_error: Option<Number>,
    pub precip_intensity_max_time: Option<u64>,
    pub precip_intensity_max: Option<Number>,
    pub precip_intensity: Option<Number>,
    pub precip_probability_error: Option<Number>,
    pub precip_probability: Option<Number>,
    pub precip_type: Option<PrecipitationType>,
    pub pressure_error: Option<Number>,
    pub pressure: Option<Number>,
    pub summary: Option<String>,
    pub sunrise_time: Option<u64>,
    pub sunset_time: Option<u64>,
    pub temperature_max_error: Option<Number>,
    pub temperature_max_time: Option<u64>,
    pub temperature_max: Option<Number>,
    pub temperature_min_error: Option<Number>,
    pub temperature_min_time: Option<u64>,
    pub temperature_min: Option<Number>,
    pub temperature_error: Option<Number>,
    pub temperature: Option<Number>,
    /// The time of this datapoint, in seconds since the Unix epoch.
    pub time: u64,
    pub visibility_error: Option<Number>,
    pub visibility: Option<Number>,
    pub wind_bearing_error: Option<Number>,
    pub wind_bearing: Option<Number>,
    pub wind_speed_error: Option<Number>,
    pub wind_speed: Option<Number>,
}

/// A [`Datapoint`] as mathematics.
pub struct DatapointView {
    pub apparent_temperature_max_time: Option<u64>,
    pub apparent_temperature_max: Option<Number>,
    pub apparent_temperature_min_time: Option<u64>,
    pub apparent_temperature_min: Option<Number>,
    pub apparent_temperature: Option<Number>,
    pub cloud_cover_error: Option<Number>,
    pub cloud_cover: Option<Number>,
    pub dew_point_error: Option<Number>,
    pub dew_point: Option<Number>,
    pub humidity_error: Option<Number>,
    pub humidity: Option<Number>,
    pub icon: Option<Icon>,
    pub moon_phase: Option<Number>,
    pub nearest_storm_bearing: Option<Number>,
    pub nearest_storm_distance: Option<Number>,
    pub ozone_error: Option<Number>,
    pub ozone: Option<Number>,
    pub precip_accumulation_error: Option<Number>,
    pub precip_accumulation: Option<Number>,
    pub precip_intensity_error: Option<Number>,
    pub precip_intensity_max_error: Option<Number>,
    pub precip_intensity_max_time: Option<u64>,
    pub precip_intensity_max: Option<Number>,
    pub precip_intensity: Option<Number>,
    pub precip_probability_error: Option<Number>,
    pub precip_probability: Option<Number>,
    pub precip_type: Option<PrecipitationType>,
    pub pressure_error: Option<Number>,
    pub pressure: Option<Number>,
    pub summary: Option<Seq<char>>,
    pub sunrise_time: Option<u64>,
    pub sunset_time: Option<u64>,
    pub temperature_max_error: Option<Number>,
    pub temperature_max_time: Option<u64>,
    pub temperature_max: Option<Number>,
    pub temperature_min_error: Option<Number>,
    pub temperature_min_time: Option<u64>,
    pub temperature_min: Option<Number>,
    pub temperature_error: Option<Number>,
    pub temperature: Option<Number>,
    pub time: u64,
    pub visibility_error: Option<Number>,
    pub visibility: Option<Number>,
    pub wind_bearing_error: Option<Number>,
    pub wind_bearing: Option<Number>,
    pub wind_speed_error: Option<Number>,
    pub wind_speed: Option<Number>,
}

impl View for Datapoint {
    type V = DatapointView;

    open spec fn view(&self) -> DatapointView {
        DatapointView {
            apparent_temperature_max_time: self.apparent_temperature_max_time.deep_view(),
            apparent_temperature_max: self.apparent_temperature_max.deep_view(),
            apparent_temperature_min_time: self.apparent_temperature_min_time.deep_view(),
            apparent_temperature_min: self.apparent_temperature_min.deep_view(),
            apparent_temperature: self.apparent_temperature.deep_view(),
            cloud_cover_error: self.cloud_cover_error.deep_view(),
            cloud_cover: self.cloud_cover.deep_view(),
            dew_point_error: self.dew_point_error.deep_view(),
            dew_point: self.dew_point.deep_view(),
            humidity_error: self.humidity_error.deep_view(),
            humidity: self.humidity.deep_view(),
            icon: self.icon.deep_view(),
            moon_phase: self.moon_phase.deep_view(),
            nearest_storm_bearing: self.nearest_storm_bearing.deep_view(),
            nearest_storm_distance: self.nearest_storm_distance.deep_view(),
            ozone_error: self.ozone_error.deep_view(),
            ozone: self.ozone.deep_view(),
            precip_accumulation_error: self.precip_accumulation_error.deep_view(),
            precip_accumulation: self.precip_accumulation.deep_view(),
            precip_intensity_error: self.precip_intensity_error.deep_view(),
            precip_intensity_max_error: self.precip_intensity_max_error.deep_view(),
            precip_intensity_max_time: self.precip_intensity_max_time.deep_view(),
            precip_intensity_max: self.precip_intensity_max.deep_view(),
            precip_intensity: self.precip_intensity.deep_view(),
            precip_probability_error: self.precip_probability_error.deep_view(),
            precip_probability: self.precip_probability.deep_view(),
            precip_type: self.precip_type.deep_view(),
            pressure_error: self.pressure_error.deep_view(),
            pressure: self.pressure.deep_view(),
            summary: self.summary.deep_view(),
            sunrise_time: self.sunrise_time.deep_view(),
            sunset_time: self.sunset_time.deep_view(),
            temperature_max_error: self.temperature_max_error.deep_view(),
            temperature_max_time: self.temperature_max_time.deep_view(),
            temperature_max: self.temperature_max.deep_view(),
            temperature_min_error: self.temperature_min_error.deep_view(),
            temperature_min_time: self.temperature_min_time.deep_view(),
            temperature_min: self.temperature_min.deep_view(),
            temperature_error: self.temperature_error.deep_view(),
            temperature: self.temperature.deep_view(),
            time: self.time.deep_view(),
            visibility_error: self.visibility_error.deep_view(),
            visibility: self.visibility.deep_view(),
            wind_bearing_error: self.wind_bearing_error.deep_view(),
            wind_bearing: self.wind_bearing.deep_view(),
            wind_speed_error: self.wind_speed_error.deep_view(),
            wind_speed: self.wind_speed.deep_view(),
        }
    }
}

impl DeepView for Datapoint {
    type V = DatapointView;

    open spec fn deep_view(&self) -> DatapointView {
        self@
    }
}

impl Datapoint {
    /// What a value decodes to: a `Datapoint` where it is an object whose every
    /// declared field decodes, and else the failure of the first declared field
    /// that does not. Fields that are not declared are passed over.
    pub open spec fn decoded(j: Json) -> Result<DatapointView, Failure> {
        match j {
            Json::Object(m) => {
                let apparent_temperature_max_time = optional(
                    m,
                    "apparentTemperatureMaxTime"@,
                    |j: Json| integer(j),
                );
                let apparent_temperature_max = optional(
                    m,
                    "apparentTemperatureMax"@,
                    |j: Json| number(j),
                );
                let apparent_temperature_min_time = optional(
                    m,
                    "apparentTemperatureMinTime"@,
                    |j: Json| integer(j),
                );
                let apparent_temperature_min = optional(
                    m,
                    "apparentTemperatureMin"@,
                    |j: Json| number(j),
                );
                let apparent_temperature = optional(m, "apparentTemperature"@, |j: Json| number(j));
                let cloud_cover_error = optional(m, "cloudCoverError"@, |j: Json| number(j));
                let cloud_cover = optional(m, "cloudCover"@, |j: Json| number(j));
                let dew_point_error = optional(m, "dewPointError"@, |j: Json| number(j));
                let dew_point = optional(m, "dewPoint"@, |j: Json| number(j));
                let humidity_error = optional(m, "humidityError"@, |j: Json| number(j));
                let humidity = optional(m, "humidity"@, |j: Json| number(j));
                let icon = optional(m, "icon"@, |j: Json| Icon::decoded(j));
                let moon_phase = optional(m, "moonPhase"@, |j: Json| number(j));
                let nearest_storm_bearing = optional(
                    m,
                    "nearestStormBearing"@,
                    |j: Json| number(j),
                );
                let nearest_storm_distance = optional(
                    m,
                    "nearestStormDistance"@,
                    |j: Json| number(j),
                );
                let ozone_error = optional(m, "ozoneError"@, |j: Json| number(j));
                let ozone = optional(m, "ozone"@, |j: Json| number(j));
                let precip_accumulation_error = optional(
                    m,
                    "precipAccumulationError"@,
                    |j: Json| number(j),
                );
                let precip_accumulation = optional(m, "precipAccumulation"@, |j: Json| number(j));
                let precip_intensity_error = optional(
                    m,
                    "precipIntensityError"@,
                    |j: Json| number(j),
                );
                let precip_intensity_max_error = optional(
                    m,
                    "precipIntensityMaxError"@,
                    |j: Json| number(j),
                );
                let precip_intensity_max_time = optional(
                    m,
                    "precipIntensityMaxTime"@,
                    |j: Json| integer(j),
                );
                let precip_intensity_max = optional(m, "precipIntensityMax"@, |j: Json| number(j));
                let precip_intensity = optional(m, "precipIntensity"@, |j: Json| number(j));
                let precip_probability_error = optional(
                    m,
                    "precipProbabilityError"@,
                    |j: Json| number(j),
                );
                let precip_probability = optional(m, "precipProbability"@, |j: Json| number(j));
                let precip_type = optional(
                    m,
                    "precipType"@,
                    |j: Json| PrecipitationType::decoded(j),
                );
                let pressure_error = optional(m, "pressureError"@, |j: Json| number(j));
                let pressure = optional(m, "pressure"@, |j: Json| number(j));
                let summary = optional(m, "summary"@, |j: Json| string(j));
                let sunrise_time = optional(m, "sunriseTime"@, |j: Json| integer(j));
                let sunset_time = optional(m, "sunsetTime"@, |j: Json| integer(j));
                let temperature_max_error = optional(
                    m,
                    "temperatureMaxError"@,
                    |j: Json| number(j),
                );
                let temperature_max_time = optional(m, "temperatureMaxTime"@, |j: Json| integer(j));
                let temperature_max = optional(m, "temperatureMax"@, |j: Json| number(j));
                let temperature_min_error = optional(
                    m,
                    "temperatureMinError"@,
                    |j: Json| number(j),
                );
                let temperature_min_time = optional(m, "temperatureMinTime"@, |j: Json| integer(j));
                let temperature_min = optional(m, "temperatureMin"@, |j: Json| number(j));
                let temperature_error = optional(m, "temperatureError"@, |j: Json| number(j));
                let temperature = optional(m, "temperature"@, |j: Json| number(j));
                let time = required(m, "time"@, |j: Json| integer(j));
                let visibility_error = optional(m, "visibilityError"@, |j: Json| number(j));
                let visibility = optional(m, "visibility"@, |j: Json| number(j));
                let wind_bearing_error = optional(m, "windBearingError"@, |j: Json| number(j));
                let wind_bearing = optional(m, "windBearing"@, |j: Json| number(j));
                let wind_speed_error = optional(m, "windSpeedError"@, |j: Json| number(j));
                let wind_speed = optional(m, "windSpeed"@, |j: Json| number(j));
                if apparent_temperature_max_time is Err {
                    Err(apparent_temperature_max_time->Err_0)
                } else if apparent_temperature_max is Err {
                    Err(apparent_temperature_max->Err_0)
                } else if apparent_temperature_min_time is Err {
                    Err(apparent_temperature_min_time->Err_0)
                } else if apparent_temperature_min is Err {
                    Err(apparent_temperature_min->Err_0)
                } else if apparent_temperature is Err {
                    Err(apparent_temperature->Err_0)
                } else if cloud_cover_error is Err {
                    Err(cloud_cover_error->Err_0)
                } else if cloud_cover is Err {
                    Err(cloud_cover->Err_0)
                } else if dew_point_error is Err {
                    Err(dew_point_error->Err_0)
                } else if dew_point is Err {
                    Err(dew_point->Err_0)
                } else if humidity_error is Err {
                    Err(humidity_error->Err_0)
                } else if humidity is Err {
                    Err(humidity->Err_0)
                } else if icon is Err {
                    Err(icon->Err_0)
                } else if moon_phase is Err {
                    Err(moon_phase->Err_0)
                } else if nearest_storm_bearing is Err {
                    Err(nearest_storm_bearing->Err_0)
                } else if nearest_storm_distance is Err {
                    Err(nearest_storm_distance->Err_0)
                } else if ozone_error is Err {
                    Err(ozone_error->Err_0)
                } else if ozone is Err {
                    Err(ozone->Err_0)
                } else if precip_accumulation_error is Err {
                    Err(precip_accumulation_error->Err_0)
                } else if precip_accumulation is Err {
                    Err(precip_accumulation->Err_0)
                } else if precip_intensity_error is Err {
                    Err(precip_intensity_error->Err_0)
                } else if precip_intensity_max_error is Err {
                    Err(precip_intensity_max_error->Err_0)
                } else if precip_intensity_max_time is Err {
                    Err(precip_intensity_max_time->Err_0)
                } else if precip_intensity_max is Err {
                    Err(precip_intensity_max->Err_0)
                } else if precip_intensity is Err {
                    Err(precip_intensity->Err_0)
                } else if precip_probability_error is Err {
                    Err(precip_probability_error->Err_0)
                } else if precip_probability is Err {
                    Err(precip_probability->Err_0)
                } else if precip_type is Err {
                    Err(precip_type->Err_0)
                } else if pressure_error is Err {
                    Err(pressure_error->Err_0)
                } else if pressure is Err {
                    Err(pressure->Err_0)
                } else if summary is Err {
                    Err(summary->Err_0)
                } else if sunrise_time is Err {
                    Err(sunrise_time->Err_0)
                } else if sunset_time is Err {
                    Err(sunset_time->Err_0)
                } else if temperature_max_error is Err {
                    Err(temperature_max_error->Err_0)
                } else if temperature_max_time is Err {
                    Err(temperature_max_time->Err_0)
                } else if temperature_max is Err {
                    Err(temperature_max->Err_0)
                } else if temperature_min_error is Err {
                    Err(temperature_min_error->Err_0)
                } else if temperature_min_time is Err {
                    Err(temperature_min_time->Err_0)
                } else if temperature_min is Err {
                    Err(temperature_min->Err_0)
                } else if temperature_error is Err {
                    Err(temperature_error->Err_0)
                } else if temperature is Err {
                    Err(temperature->Err_0)
                } else if time is Err {
                    Err(time->Err_0)
                } else if visibility_error is Err {
                    Err(visibility_error->Err_0)
                } else if visibility is Err {
                    Err(visibility->Err_0)
                } else if wind_bearing_error is Err {
                    Err(wind_bearing_error->Err_0)
                } else if wind_bearing is Err {
                    Err(wind_bearing->Err_0)
                } else if wind_speed_error is Err {
                    Err(wind_speed_error->Err_0)
                } else if wind_speed is Err {
                    Err(wind_speed->Err_0)
                } else {
                    Ok(
                        DatapointView {
                            apparent_temperature_max_time: apparent_temperature_max_time->Ok_0,
                            apparent_temperature_max: apparent_temperature_max->Ok_0,
                            apparent_temperature_min_time: apparent_temperature_min_time->Ok_0,
                            apparent_temperature_min: apparent_temperature_min->Ok_0,
                            apparent_temperature: apparent_temperature->Ok_0,
                            cloud_cover_error: cloud_cover_error->Ok_0,
                            cloud_cover: cloud_cover->Ok_0,
                            dew_point_error: dew_point_error->Ok_0,
                            dew_point: dew_point->Ok_0,
                            humidity_error: humidity_error->Ok_0,
                            humidity: humidity->Ok_0,
                            icon: icon->Ok_0,
                            moon_phase: moon_phase->Ok_0,
                            nearest_storm_bearing: nearest_storm_bearing->Ok_0,
                            nearest_storm_distance: nearest_storm_distance->Ok_0,
                            ozone_error: ozone_error->Ok_0,
                            ozone: ozone->Ok_0,
                            precip_accumulation_error: precip_accumulation_error->Ok_0,
                            precip_accumulation: precip_accumulation->Ok_0,
                            precip_intensity_error: precip_intensity_error->Ok_0,
                            precip_intensity_max_error: precip_intensity_max_error->Ok_0,
                            precip_intensity_max_time: precip_intensity_max_time->Ok_0,
                            precip_intensity_max: precip_intensity_max->Ok_0,
                            precip_intensity: precip_intensity->Ok_0,
                            precip_probability_error: precip_probability_error->Ok_0,
                            precip_probability: precip_probability->Ok_0,
                            precip_type: precip_type->Ok_0,
                            pressure_error: pressure_error->Ok_0,
                            pressure: pressure->Ok_0,
                            summary: summary->Ok_0,
                            sunrise_time: sunrise_time->Ok_0,
                            sunset_time: sunset_time->Ok_0,
                            temperature_max_error: temperature_max_error->Ok_0,
                            temperature_max_time: temperature_max_time->Ok_0,
                            temperature_max: temperature_max->Ok_0,
                            temperature_min_error: temperature_min_error->Ok_0,
                            temperature_min_time: temperature_min_time->Ok_0,
                            temperature_min: temperature_min->Ok_0,
                            temperature_error: temperature_error->Ok_0,
                            temperature: temperature->Ok_0,
                            time: time->Ok_0,
                            visibility_error: visibility_error->Ok_0,
                            visibility: visibility->Ok_0,
                            wind_bearing_error: wind_bearing_error->Ok_0,
                            wind_bearing: wind_bearing->Ok_0,
                            wind_speed_error: wind_speed_error->Ok_0,
                            wind_speed: wind_speed->Ok_0,
                        },
                    )
                }
            },
            _ => Err(unfit("object"@, j)),
        }
    }

    /// What an array of values decodes to, each element a `Datapoint`.
    pub open spec fn decoded_all(j: Json) -> Result<Seq<DatapointView>, Failure> {
        elements(j, |e: Json| Self::decoded(e))
    }

    /// The place of a field's name in the order in which the fields are
    /// declared.
    #[verifier::opaque]
    closed spec fn rank(name: Seq<char>) -> int {
        if name == "apparentTemperatureMaxTime"@ {
            0
        } else if name == "apparentTemperatureMax"@ {
            1
        } else if name == "apparentTemperatureMinTime"@ {
            2
        } else if name == "apparentTemperatureMin"@ {
            3
        } else if name == "apparentTemperature"@ {
            4
        } else if name == "cloudCoverError"@ {
            5
        } else if name == "cloudCover"@ {
            6
        } else if name == "dewPointError"@ {
            7
        } else if name == "dewPoint"@ {
            8
        } else if name == "humidityError"@ {
            9
        } else if name == "humidity"@ {
            10
        } else if name == "icon"@ {
            11
        } else if name == "moonPhase"@ {
            12
        } else if name == "nearestStormBearing"@ {
            13
        } else if name == "nearestStormDistance"@ {
            14
        } else if name == "ozoneError"@ {
            15
        } else if name == "ozone"@ {
            16
        } else if name == "precipAccumulationError"@ {
            17
        } else if name == "precipAccumulation"@ {
            18
        } else if name == "precipIntensityError"@ {
            19
        } else if name == "precipIntensityMaxError"@ {
            20
        } else if name == "precipIntensityMaxTime"@ {
            21
        } else if name == "precipIntensityMax"@ {
            22
        } else if name == "precipIntensity"@ {
            23
        } else if name == "precipProbabilityError"@ {
            24
        } else if name == "precipProbability"@ {
            25
        } else if name == "precipType"@ {
            26
        } else if name == "pressureError"@ {
            27
        } else if name == "pressure"@ {
            28
        } else if name == "summary"@ {
            29
        } else if name == "sunriseTime"@ {
            30
        } else if name == "sunsetTime"@ {
            31
        } else if name == "temperatureMaxError"@ {
            32
        } else if name == "temperatureMaxTime"@ {
            33
        } else if name == "temperatureMax"@ {
            34
        } else if name == "temperatureMinError"@ {
            35
        } else if name == "temperatureMinTime"@ {
            36
        } else if name == "temperatureMin"@ {
            37
        } else if name == "temperatureError"@ {
            38
        } else if name == "temperature"@ {
            39
        } else if name == "time"@ {
            40
        } else if name == "visibilityError"@ {
            41
        } else if name == "visibility"@ {
            42
        } else if name == "windBearingError"@ {
            43
        } else if name == "windBearing"@ {
            44
        } else if name == "windSpeedError"@ {
            45
        } else if name == "windSpeed"@ {
            46
        } else {
            47
        }
    }

    /// Every declared field has its own place in the order: no two share a name.
    proof fn lemma_rank()
        ensures
            Self::rank("apparentTemperatureMaxTime"@) == 0,
            Self::rank("apparentTemperatureMax"@) == 1,
            Self::rank("apparentTemperatureMinTime"@) == 2,
            Self::rank("apparentTemperatureMin"@) == 3,
            Self::rank("apparentTemperature"@) == 4,
            Self::rank("cloudCoverError"@) == 5,
            Self::rank("cloudCover"@) == 6,
            Self::rank("dewPointError"@) == 7,
            Self::rank("dewPoint"@) == 8,
            Self::rank("humidityError"@) == 9,
            Self::rank("humidity"@) == 10,
            Self::rank("icon"@) == 11,
            Self::rank("moonPhase"@) == 12,
            Self::rank("nearestStormBearing"@) == 13,
            Self::rank("nearestStormDistance"@) == 14,
            Self::rank("ozoneError"@) == 15,
            Self::rank("ozone"@) == 16,
            Self::rank("precipAccumulationError"@) == 17,
            Self::rank("precipAccumulation"@) == 18,
            Self::rank("precipIntensityError"@) == 19,
            Self::rank("precipIntensityMaxError"@) == 20,
            Self::rank("precipIntensityMaxTime"@) == 21,
            Self::rank("precipIntensityMax"@) == 22,
            Self::rank("precipIntensity"@) == 23,
            Self::rank("precipProbabilityError"@) == 24,
            Self::rank("precipProbability"@) == 25,
            Self::rank("precipType"@) == 26,
            Self::rank("pressureError"@) == 27,
            Self::rank("pressure"@) == 28,
            Self::rank("summary"@) == 29,
            Self::rank("sunriseTime"@) == 30,
            Self::rank("sunsetTime"@) == 31,
            Self::rank("temperatureMaxError"@) == 32,
            Self::rank("temperatureMaxTime"@) == 33,
            Self::rank("temperatureMax"@) == 34,
            Self::rank("temperatureMinError"@) == 35,
            Self::rank("temperatureMinTime"@) == 36,
            Self::rank("temperatureMin"@) == 37,
            Self::rank("temperatureError"@) == 38,
            Self::rank("temperature"@) == 39,
            Self::rank("time"@) == 40,
            Self::rank("visibilityError"@) == 41,
            Self::rank("visibility"@) == 42,
            Self::rank("windBearingError"@) == 43,
            Self::rank("windBearing"@) == 44,
            Self::rank("windSpeedError"@) == 45,
            Self::rank("windSpeed"@) == 46,
    {
        reveal(Datapoint::rank);
        reveal_strlit("apparentTemperatureMaxTime");
        reveal_strlit("apparentTemperatureMax");
        reveal_strlit("apparentTemperatureMinTime");
        reveal_strlit("apparentTemperatureMin");
        reveal_strlit("apparentTemperature");
        reveal_strlit("cloudCoverError");
        reveal_strlit("cloudCover");
        reveal_strlit("dewPointError");
        reveal_strlit("dewPoint");
        reveal_strlit("humidityError");
        reveal_strlit("humidity");
        reveal_strlit("icon");
        reveal_strlit("moonPhase");
        reveal_strlit("nearestStormBearing");
        reveal_strlit("nearestStormDistance");
        reveal_strlit("ozoneError");
        reveal_strlit("ozone");
        reveal_strlit("precipAccumulationError");
        reveal_strlit("precipAccumulation");
        reveal_strlit("precipIntensityError");
        reveal_strlit("precipIntensityMaxError");
        reveal_strlit("precipIntensityMaxTime");
        reveal_strlit("precipIntensityMax");
        reveal_strlit("precipIntensity");
        reveal_strlit("precipProbabilityError");
        reveal_strlit("precipProbability");
        reveal_strlit("precipType");
        reveal_strlit("pressureError");
        reveal_strlit("pressure");
        reveal_strlit("summary");
        reveal_strlit("sunriseTime");
        reveal_strlit("sunsetTime");
        reveal_strlit("temperatureMaxError");
        reveal_strlit("temperatureMaxTime");
        reveal_strlit("temperatureMax");
        reveal_strlit("temperatureMinError");
        reveal_strlit("temperatureMinTime");
        reveal_strlit("temperatureMin");
        reveal_strlit("temperatureError");
        reveal_strlit("temperature");
        reveal_strlit("time");
        reveal_strlit("visibilityError");
        reveal_strlit("visibility");
        reveal_strlit("windBearingError");
        reveal_strlit("windBearing");
        reveal_strlit("windSpeedError");
        reveal_strlit("windSpeed");
        assert("apparentTemperatureMaxTime"@ =~= seq![
            'a', 'p', 'p', 'a', 'r', 'e', 'n', 't', 'T', 'e', 'm', 'p', 'e', 'r', 'a', 't', 'u',
            'r', 'e', 'M', 'a', 'x', 'T', 'i', 'm', 'e',
        ]);
        assert("apparentTemperatureMax"@ =~= seq![
            'a', 'p', 'p', 'a', 'r', 'e', 'n', 't', 'T', 'e', 'm', 'p', 'e', 'r', 'a', 't', 'u',
            'r', 'e', 'M', 'a', 'x',
        ]);
        assert("apparentTemperatureMinTime"@ =~= seq![
            'a', 'p', 'p', 'a', 'r', 'e', 'n', 't', 'T', 'e', 'm', 'p', 'e', 'r', 'a', 't', 'u',
            'r', 'e', 'M', 'i', 'n', 'T', 'i', 'm', 'e',
        ]);
        assert("apparentTemperatureMin"@ =~= seq![
            'a', 'p', 'p', 'a', 'r', 'e', 'n', 't', 'T', 'e', 'm', 'p', 'e', 'r', 'a', 't', 'u',
            'r', 'e', 'M', 'i', 'n',
        ]);
        assert("apparentTemperature"@ =~= seq![
            'a', 'p', 'p', 'a', 'r', 'e', 'n', 't', 'T', 'e', 'm', 'p', 'e', 'r', 'a', 't', 'u',
            'r', 'e',
        ]);
        assert("cloudCoverError"@ =~= seq![
            'c', 'l', 'o', 'u', 'd', 'C', 'o', 'v', 'e', 'r', 'E', 'r', 'r', 'o', 'r',
        ]);
        assert("cloudCover"@ =~= seq!['c', 'l', 'o', 'u', 'd', 'C', 'o', 'v', 'e', 'r']);
        assert("dewPointError"@ =~= seq![
            'd', 'e', 'w', 'P', 'o', 'i', 'n', 't', 'E', 'r', 'r', 'o', 'r',
        ]);
        assert("dewPoint"@ =~= seq!['d', 'e', 'w', 'P', 'o', 'i', 'n', 't']);
        assert("humidityError"@ =~= seq![
            'h', 'u', 'm', 'i', 'd', 'i', 't', 'y', 'E', 'r', 'r', 'o', 'r',
        ]);
        assert("humidity"@ =~= seq!['h', 'u', 'm', 'i', 'd', 'i', 't', 'y']);
        assert("icon"@ =~= seq!['i', 'c', 'o', 'n']);
        assert("moonPhase"@ =~= seq!['m', 'o', 'o', 'n', 'P', 'h', 'a', 's', 'e']);
        assert("nearestStormBearing"@ =~= seq![
            'n', 'e', 'a', 'r', 'e', 's', 't', 'S', 't', 'o', 'r', 'm', 'B', 'e', 'a', 'r', 'i',
            'n', 'g',
        ]);
        assert("nearestStormDistance"@ =~= seq![
            'n', 'e', 'a', 'r', 'e', 's', 't', 'S', 't', 'o', 'r', 'm', 'D', 'i', 's', 't', 'a',
            'n', 'c', 'e',
        ]);
        assert("ozoneError"@ =~= seq!['o', 'z', 'o', 'n', 'e', 'E', 'r', 'r', 'o', 'r']);
        assert("ozone"@ =~= seq!['o', 'z', 'o', 'n', 'e']);
        assert("precipAccumulationError"@ =~= seq![
            'p', 'r', 'e', 'c', 'i', 'p', 'A', 'c', 'c', 'u', 'm', 'u', 'l', 'a', 't', 'i', 'o',
            'n', 'E', 'r', 'r', 'o', 'r',
        ]);
        assert("precipAccumulation"@ =~= seq![
            'p', 'r', 'e', 'c', 'i', 'p', 'A', 'c', 'c', 'u', 'm', 'u', 'l', 'a', 't', 'i', 'o',
            'n',
        ]);
        assert("precipIntensityError"@ =~= seq![
            'p', 'r', 'e', 'c', 'i', 'p', 'I', 'n', 't', 'e', 'n', 's', 'i', 't', 'y', 'E', 'r',
            'r', 'o', 'r',
        ]);
        assert("precipIntensityMaxError"@ =~= seq![
            'p', 'r', 'e', 'c', 'i', 'p', 'I', 'n', 't', 'e', 'n', 's', 'i', 't', 'y', 'M', 'a',
            'x', 'E', 'r', 'r', 'o', 'r',
        ]);
        assert("precipIntensityMaxTime"@ =~= seq![
            'p', 'r', 'e', 'c', 'i', 'p', 'I', 'n', 't', 'e', 'n', 's', 'i', 't', 'y', 'M', 'a',
            'x', 'T', 'i', 'm', 'e',
        ]);
        assert("precipIntensityMax"@ =~= seq![
            'p', 'r', 'e', 'c', 'i', 'p', 'I', 'n', 't', 'e', 'n', 's', 'i', 't', 'y', 'M', 'a',
            'x',
        ]);
        assert("precipIntensity"@ =~= seq![
            'p', 'r', 'e', 'c', 'i', 'p', 'I', 'n', 't', 'e', 'n', 's', 'i', 't', 'y',
        ]);
        assert("precipProbabilityError"@ =~= seq![
            'p', 'r', 'e', 'c', 'i', 'p', 'P', 'r', 'o', 'b', 'a', 'b', 'i', 'l', 'i', 't', 'y',
            'E', 'r', 'r', 'o', 'r',
        ]);
        assert("precipProbability"@ =~= seq![
            'p', 'r', 'e', 'c', 'i', 'p', 'P', 'r', 'o', 'b', 'a', 'b', 'i', 'l', 'i', 't', 'y',
        ]);
        assert("precipType"@ =~= seq!['p', 'r', 'e', 'c', 'i', 'p', 'T', 'y', 'p', 'e']);
        assert("pressureError"@ =~= seq![
            'p', 'r', 'e', 's', 's', 'u', 'r', 'e', 'E', 'r', 'r', 'o', 'r',
        ]);
        assert("pressure"@ =~= seq!['p', 'r', 'e', 's', 's', 'u', 'r', 'e']);
        assert("summary"@ =~= seq!['s', 'u', 'm', 'm', 'a', 'r', 'y']);
        assert("sunriseTime"@ =~= seq!['s', 'u', 'n', 'r', 'i', 's', 'e', 'T', 'i', 'm', 'e']);
        assert("sunsetTime"@ =~= seq!['s', 'u', 'n', 's', 'e', 't', 'T', 'i', 'm', 'e']);
        assert("temperatureMaxError"@ =~= seq![
            't', 'e', 'm', 'p', 'e', 'r', 'a', 't', 'u', 'r', 'e', 'M', 'a', 'x', 'E', 'r', 'r',
            'o', 'r',
        ]);
        assert("temperatureMaxTime"@ =~= seq![
            't', 'e', 'm', 'p', 'e', 'r', 'a', 't', 'u', 'r', 'e', 'M', 'a', 'x', 'T', 'i', 'm',
            'e',
        ]);
        assert("temperatureMax"@ =~= seq![
            't', 'e', 'm', 'p', 'e', 'r', 'a', 't', 'u', 'r', 'e', 'M', 'a', 'x',
        ]);
        assert("temperatureMinError"@ =~= seq![
            't', 'e', 'm', 'p', 'e', 'r', 'a', 't', 'u', 'r', 'e', 'M', 'i', 'n', 'E', 'r', 'r',
            'o', 'r',
        ]);
        assert("temperatureMinTime"@ =~= seq![
            't', 'e', 'm', 'p', 'e', 'r', 'a', 't', 'u', 'r', 'e', 'M', 'i', 'n', 'T', 'i', 'm',
            'e',
        ]);
        assert("temperatureMin"@ =~= seq![
            't', 'e', 'm', 'p', 'e', 'r', 'a', 't', 'u', 'r', 'e', 'M', 'i', 'n',
        ]);
        assert("temperatureError"@ =~= seq![
            't', 'e', 'm', 'p', 'e', 'r', 'a', 't', 'u', 'r', 'e', 'E', 'r', 'r', 'o', 'r',
        ]);
        assert("temperature"@ =~= seq!['t', 'e', 'm', 'p', 'e', 'r', 'a', 't', 'u', 'r', 'e']);
        assert("time"@ =~= seq!['t', 'i', 'm', 'e']);
        assert("visibilityError"@ =~= seq![
            'v', 'i', 's', 'i', 'b', 'i', 'l', 'i', 't', 'y', 'E', 'r', 'r', 'o', 'r',
        ]);
        assert("visibility"@ =~= seq!['v', 'i', 's', 'i', 'b', 'i', 'l', 'i', 't', 'y']);
        assert("windBearingError"@ =~= seq![
            'w', 'i', 'n', 'd', 'B', 'e', 'a', 'r', 'i', 'n', 'g', 'E', 'r', 'r', 'o', 'r',
        ]);
        assert("windBearing"@ =~= seq!['w', 'i', 'n', 'd', 'B', 'e', 'a', 'r', 'i', 'n', 'g']);
        assert("windSpeedError"@ =~= seq![
            'w', 'i', 'n', 'd', 'S', 'p', 'e', 'e', 'd', 'E', 'r', 'r', 'o', 'r',
        ]);
        assert("windSpeed"@ =~= seq!['w', 'i', 'n', 'd', 'S', 'p', 'e', 'e', 'd']);
    }

    /// Decodes a `Datapoint` from an object, field by field in the order of
    /// their declaration. The first field that fails ends the work, and its
    /// failure is the result.
    pub fn decode(value: ValueTree) -> (r: Result<Datapoint, DecodeError>)
        ensures
            outcome(r) == Self::decoded(value@),
    {
        match value {
            ValueTree::Object(mut node) => {
                let ghost trail = Trail {
                    origin: node@,
                    rank: |name: Seq<char>| Self::rank(name),
                };
                proof {
                    Self::lemma_rank();
                    lemma_agrees_at_start(trail);
                }
                let apparent_temperature_max_time = optional_integer(
                    &mut node,
                    "apparentTemperatureMaxTime",
                    Ghost(trail),
                )?;
                let apparent_temperature_max = optional_number(
                    &mut node,
                    "apparentTemperatureMax",
                    Ghost(trail),
                )?;
                let apparent_temperature_min_time = optional_integer(
                    &mut node,
                    "apparentTemperatureMinTime",
                    Ghost(trail),
                )?;
                let apparent_temperature_min = optional_number(
                    &mut node,
                    "apparentTemperatureMin",
                    Ghost(trail),
                )?;
                let apparent_temperature = optional_number(
                    &mut node,
                    "apparentTemperature",
                    Ghost(trail),
                )?;
                let cloud_cover_error = optional_number(
                    &mut node,
                    "cloudCoverError",
                    Ghost(trail),
                )?;
                let cloud_cover = optional_number(&mut node, "cloudCover", Ghost(trail))?;
                let dew_point_error = optional_number(&mut node, "dewPointError", Ghost(trail))?;
                let dew_point = optional_number(&mut node, "dewPoint", Ghost(trail))?;
                let humidity_error = optional_number(&mut node, "humidityError", Ghost(trail))?;
                let humidity = optional_number(&mut node, "humidity", Ghost(trail))?;
                let icon = next_optional(
                    &mut node,
                    "icon",
                    Icon::decode,
                    Ghost(trail),
                    Ghost(|j: Json| Icon::decoded(j)),
                )?;
                let moon_phase = optional_number(&mut node, "moonPhase", Ghost(trail))?;
                let nearest_storm_bearing = optional_number(
                    &mut node,
                    "nearestStormBearing",
                    Ghost(trail),
                )?;
                let nearest_storm_distance = optional_number(
                    &mut node,
                    "nearestStormDistance",
                    Ghost(trail),
                )?;
                let ozone_error = optional_number(&mut node, "ozoneError", Ghost(trail))?;
                let ozone = optional_number(&mut node, "ozone", Ghost(trail))?;
                let precip_accumulation_error = optional_number(
                    &mut node,
                    "precipAccumulationError",
                    Ghost(trail),
                )?;
                let precip_accumulation = optional_number(
                    &mut node,
                    "precipAccumulation",
                    Ghost(trail),
                )?;
                let precip_intensity_error = optional_number(
                    &mut node,
                    "precipIntensityError",
                    Ghost(trail),
                )?;
                let precip_intensity_max_error = optional_number(
                    &mut node,
                    "precipIntensityMaxError",
                    Ghost(trail),
                )?;
                let precip_intensity_max_time = optional_integer(
                    &mut node,
                    "precipIntensityMaxTime",
                    Ghost(trail),
                )?;
                let precip_intensity_max = optional_number(
                    &mut node,
                    "precipIntensityMax",
                    Ghost(trail),
                )?;
                let precip_intensity = optional_number(&mut node, "precipIntensity", Ghost(trail))?;
                let precip_probability_error = optional_number(
                    &mut node,
                    "precipProbabilityError",
                    Ghost(trail),
                )?;
                let precip_probability = optional_number(
                    &mut node,
                    "precipProbability",
                    Ghost(trail),
                )?;
                let precip_type = next_optional(
                    &mut node,
                    "precipType",
                    PrecipitationType::decode,
                    Ghost(trail),
                    Ghost(|j: Json| PrecipitationType::decoded(j)),
                )?;
                let pressure_error = optional_number(&mut node, "pressureError", Ghost(trail))?;
                let pressure = optional_number(&mut node, "pressure", Ghost(trail))?;
                let summary = next_optional(
                    &mut node,
                    "summary",
                    into_string,
                    Ghost(trail),
                    Ghost(|j: Json| string(j)),
                )?;
                let sunrise_time = optional_integer(&mut node, "sunriseTime", Ghost(trail))?;
                let sunset_time = optional_integer(&mut node, "sunsetTime", Ghost(trail))?;
                let temperature_max_error = optional_number(
                    &mut node,
                    "temperatureMaxError",
                    Ghost(trail),
                )?;
                let temperature_max_time = optional_integer(
                    &mut node,
                    "temperatureMaxTime",
                    Ghost(trail),
                )?;
                let temperature_max = optional_number(&mut node, "temperatureMax", Ghost(trail))?;
                let temperature_min_error = optional_number(
                    &mut node,
                    "temperatureMinError",
                    Ghost(trail),
                )?;
                let temperature_min_time = optional_integer(
                    &mut node,
                    "temperatureMinTime",
                    Ghost(trail),
                )?;
                let temperature_min = optional_number(&mut node, "temperatureMin", Ghost(trail))?;
                let temperature_error = optional_number(
                    &mut node,
                    "temperatureError",
                    Ghost(trail),
                )?;
                let temperature = optional_number(&mut node, "temperature", Ghost(trail))?;
                let time = next_required(
                    &mut node,
                    "time",
                    into_u64,
                    Ghost(trail),
                    Ghost(|j: Json| integer(j)),
                )?;
                let visibility_error = optional_number(&mut node, "visibilityError", Ghost(trail))?;
                let visibility = optional_number(&mut node, "visibility", Ghost(trail))?;
                let wind_bearing_error = optional_number(
                    &mut node,
                    "windBearingError",
                    Ghost(trail),
                )?;
                let wind_bearing = optional_number(&mut node, "windBearing", Ghost(trail))?;
                let wind_speed_error = optional_number(&mut node, "windSpeedError", Ghost(trail))?;
                let wind_speed = optional_number(&mut node, "windSpeed", Ghost(trail))?;
                Ok(
                    Datapoint {
                        apparent_temperature_max_time,
                        apparent_temperature_max,
                        apparent_temperature_min_time,
                        apparent_temperature_min,
                        apparent_temperature,
                        cloud_cover_error,
                        cloud_cover,
                        dew_point_error,
                        dew_point,
                        humidity_error,
                        humidity,
                        icon,
                        moon_phase,
                        nearest_storm_bearing,
                        nearest_storm_distance,
                        ozone_error,
                        ozone,
                        precip_accumulation_error,
                        precip_accumulation,
                        precip_intensity_error,
                        precip_intensity_max_error,
                        precip_intensity_max_time,
                        precip_intensity_max,
                        precip_intensity,
                        precip_probability_error,
                        precip_probability,
                        precip_type,
                        pressure_error,
                        pressure,
                        summary,
                        sunrise_time,
                        sunset_time,
                        temperature_max_error,
                        temperature_max_time,
                        temperature_max,
                        temperature_min_error,
                        temperature_min_time,
                        temperature_min,
                        temperature_error,
                        temperature,
                        time,
                        visibility_error,
                        visibility,
                        wind_bearing_error,
                        wind_bearing,
                        wind_speed_error,
                        wind_speed,
                    },
                )
            },
            other => Err(DecodeError::TypeMismatch(String::new(), "object".to_owned(), other)),
        }
    }

    /// Decoding a `Datapoint` fails only by decoding: with a missing field or a
    /// mismatch, and never with the failure of a collaborator.
    pub proof fn fails_by_decoding()
        ensures
            forall|j: Json| within_decoding(#[trigger] Self::decoded(j)),
            fails_by_decoding(|j: Json| Self::decoded(j)),
            fails_by_decoding(|j: Json| Self::decoded_all(j)),
    {
        coercions_fail_by_decoding();
        Icon::fails_by_decoding();
        PrecipitationType::fails_by_decoding();
        assert forall|j: Json| within_decoding(#[trigger] Self::decoded(j)) by {
            if let Json::Object(m) = j {
                field_fails_by_decoding(m, "apparentTemperatureMaxTime"@, |j: Json| integer(j));
                field_fails_by_decoding(m, "apparentTemperatureMax"@, |j: Json| number(j));
                field_fails_by_decoding(m, "apparentTemperatureMinTime"@, |j: Json| integer(j));
                field_fails_by_decoding(m, "apparentTemperatureMin"@, |j: Json| number(j));
                field_fails_by_decoding(m, "apparentTemperature"@, |j: Json| number(j));
                field_fails_by_decoding(m, "cloudCoverError"@, |j: Json| number(j));
                field_fails_by_decoding(m, "cloudCover"@, |j: Json| number(j));
                field_fails_by_decoding(m, "dewPointError"@, |j: Json| number(j));
                field_fails_by_decoding(m, "dewPoint"@, |j: Json| number(j));
                field_fails_by_decoding(m, "humidityError"@, |j: Json| number(j));
                field_fails_by_decoding(m, "humidity"@, |j: Json| number(j));
                field_fails_by_decoding(m, "icon"@, |j: Json| Icon::decoded(j));
                field_fails_by_decoding(m, "moonPhase"@, |j: Json| number(j));
                field_fails_by_decoding(m, "nearestStormBearing"@, |j: Json| number(j));
                field_fails_by_decoding(m, "nearestStormDistance"@, |j: Json| number(j));
                field_fails_by_decoding(m, "ozoneError"@, |j: Json| number(j));
                field_fails_by_decoding(m, "ozone"@, |j: Json| number(j));
                field_fails_by_decoding(m, "precipAccumulationError"@, |j: Json| number(j));
                field_fails_by_decoding(m, "precipAccumulation"@, |j: Json| number(j));
                field_fails_by_decoding(m, "precipIntensityError"@, |j: Json| number(j));
                field_fails_by_decoding(m, "precipIntensityMaxError"@, |j: Json| number(j));
                field_fails_by_decoding(m, "precipIntensityMaxTime"@, |j: Json| integer(j));
                field_fails_by_decoding(m, "precipIntensityMax"@, |j: Json| number(j));
                field_fails_by_decoding(m, "precipIntensity"@, |j: Json| number(j));
                field_fails_by_decoding(m, "precipProbabilityError"@, |j: Json| number(j));
                field_fails_by_decoding(m, "precipProbability"@, |j: Json| number(j));
                field_fails_by_decoding(m, "precipType"@, |j: Json| PrecipitationType::decoded(j));
                field_fails_by_decoding(m, "pressureError"@, |j: Json| number(j));
                field_fails_by_decoding(m, "pressure"@, |j: Json| number(j));
                field_fails_by_decoding(m, "summary"@, |j: Json| string(j));
                field_fails_by_decoding(m, "sunriseTime"@, |j: Json| integer(j));
                field_fails_by_decoding(m, "sunsetTime"@, |j: Json| integer(j));
                field_fails_by_decoding(m, "temperatureMaxError"@, |j: Json| number(j));
                field_fails_by_decoding(m, "temperatureMaxTime"@, |j: Json| integer(j));
                field_fails_by_decoding(m, "temperatureMax"@, |j: Json| number(j));
                field_fails_by_decoding(m, "temperatureMinError"@, |j: Json| number(j));
                field_fails_by_decoding(m, "temperatureMinTime"@, |j: Json| integer(j));
                field_fails_by_decoding(m, "temperatureMin"@, |j: Json| number(j));
                field_fails_by_decoding(m, "temperatureError"@, |j: Json| number(j));
                field_fails_by_decoding(m, "temperature"@, |j: Json| number(j));
                field_fails_by_decoding(m, "time"@, |j: Json| integer(j));
                field_fails_by_decoding(m, "visibilityError"@, |j: Json| number(j));
                field_fails_by_decoding(m, "visibility"@, |j: Json| number(j));
                field_fails_by_decoding(m, "windBearingError"@, |j: Json| number(j));
                field_fails_by_decoding(m, "windBearing"@, |j: Json| number(j));
                field_fails_by_decoding(m, "windSpeedError"@, |j: Json| number(j));
                field_fails_by_decoding(m, "windSpeed"@, |j: Json| number(j));
            }
        }
        assert forall|j: Json| within_decoding(#[trigger] Self::decoded_all(j)) by {
            elements_fail_by_decoding(j, |e: Json| Self::decoded(e));
        }
    }

    /// Decodes an array whose every element is a `Datapoint`.
    pub fn decode_all(value: ValueTree) -> (r: Result<Vec<Datapoint>, DecodeError>)
        ensures
            outcome(r) == Self::decoded_all(value@),
    {
        array_of(value, Self::decode, Ghost(|e: Json| Self::decoded(e)))
    }
}

impl Datapoint {
    /// A datapoint without humidity is no worse for it: where the object has
    /// no field `humidity`, whatever it decodes to holds none.
    pub proof fn humidity_may_be_absent(m: Members)
        requires
            field(m, "humidity"@).is_none(),
        ensures
            optional(m, "humidity"@, |j: Json| number(j)) == Ok::<Option<Number>, Failure>(None),
            Self::decoded(Json::Object(m)) matches Ok(d) ==> d.humidity.is_none(),
    {
        absent_field(m, "humidity"@, |j: Json| number(j));
    }
}

} // verus!
