use darksky::{
    parse, Alert, Datablock, Datapoint, DecodeError, Flags, Forecast, Icon, Number, Object,
    PrecipitationType, ValueTree,
};

fn tree(text: &str) -> ValueTree {
    parse(text).unwrap()
}

fn float(x: Option<Number>) -> Option<f64> {
    match x {
        Some(Number::Float(bits)) => Some(f64::from_bits(bits)),
        Some(Number::PosInt(n)) => Some(n as f64),
        Some(Number::NegInt(n)) => Some(n as f64),
        None => None,
    }
}

const MINIMAL: &str = r#"{"latitude":37.8,"longitude":-122.4,"timezone":"America/Los_Angeles","currently":{"time":1000,"temperature":72.5,"icon":"clear-day"}}"#;

#[test]
fn minimal_document_decodes() {
    let forecast = Forecast::from_json(MINIMAL).unwrap();
    let currently = forecast.currently.clone().unwrap();
    assert_eq!(currently.icon, Some(Icon::ClearDay));
    assert_eq!(float(currently.temperature), Some(72.5));
    assert_eq!(currently.temperature, Some(Number::Float(72.5f64.to_bits())));
    assert_eq!(currently.time, 1000);
    assert_eq!(currently.humidity, None);
    assert_eq!(forecast.daily, None);
    assert_eq!(forecast.hourly, None);
    assert_eq!(forecast.minutely, None);
    assert_eq!(forecast.flags, None);
    assert_eq!(forecast.offset, None);
    assert_eq!(forecast.alerts, Vec::<Alert>::new());
    assert_eq!(float(Some(forecast.latitude)), Some(37.8));
    assert_eq!(float(Some(forecast.longitude)), Some(-122.4));
    assert_eq!(forecast.timezone, "America/Los_Angeles");
}

#[test]
fn decode_agrees_with_from_json() {
    let by_tree = Forecast::decode(tree(MINIMAL)).unwrap();
    let by_text = Forecast::from_json(MINIMAL).unwrap();
    assert_eq!(by_tree, by_text);
}

#[test]
fn missing_latitude_is_reported() {
    let text = r#"{"longitude":-122.4,"timezone":"America/Los_Angeles","currently":{"time":1000,"temperature":72.5,"icon":"clear-day"}}"#;
    match Forecast::from_json(text) {
        Err(DecodeError::Missing(name)) => assert_eq!(name, "latitude"),
        other => panic!("{:?}", other),
    }
}

#[test]
fn missing_longitude_and_timezone_are_reported_in_order() {
    match Forecast::from_json(r#"{"latitude":1}"#) {
        Err(DecodeError::Missing(name)) => assert_eq!(name, "longitude"),
        other => panic!("{:?}", other),
    }
    match Forecast::from_json(r#"{"latitude":1,"longitude":2}"#) {
        Err(DecodeError::Missing(name)) => assert_eq!(name, "timezone"),
        other => panic!("{:?}", other),
    }
    match Forecast::from_json(r#"{}"#) {
        Err(DecodeError::Missing(name)) => assert_eq!(name, "latitude"),
        other => panic!("{:?}", other),
    }
}

#[test]
fn first_failure_in_declaration_order_wins() {
    // `currently` is declared before `latitude`: its failure is the one reported.
    let text = r#"{"timezone":"UTC","currently":{"temperature":1.5}}"#;
    match Forecast::from_json(text) {
        Err(DecodeError::Missing(name)) => assert_eq!(name, "time"),
        other => panic!("{:?}", other),
    }
    // Within a datapoint, `humidity` is declared before `time`.
    let point = tree(r#"{"time":"soon","humidity":"damp"}"#);
    match Datapoint::decode(point) {
        Err(DecodeError::TypeMismatch(name, expected, actual)) => {
            assert_eq!(name, "humidity");
            assert_eq!(expected, "number");
            assert_eq!(actual, ValueTree::String("damp".to_string()));
        },
        other => panic!("{:?}", other),
    }
}

#[test]
fn absent_humidity_is_none() {
    let point = Datapoint::decode(tree(
        r#"{"time":1509993277,"temperature":66.1,"pressure":1016,"windBearing":246,"summary":"Clear","precipType":"rain","sunriseTime":1509967519}"#,
    ))
    .unwrap();
    assert_eq!(point.humidity, None);
    assert_eq!(point.humidity_error, None);
    assert_eq!(point.time, 1509993277);
    assert_eq!(float(point.temperature), Some(66.1));
    assert_eq!(point.pressure, Some(Number::PosInt(1016)));
    assert_eq!(float(point.pressure), Some(1016.0));
    assert_eq!(point.wind_bearing, Some(Number::PosInt(246)));
    assert_eq!(point.summary, Some("Clear".to_string()));
    assert_eq!(point.precip_type, Some(PrecipitationType::Rain));
    assert_eq!(point.sunrise_time, Some(1509967519));
    assert_eq!(point.icon, None);
}

#[test]
fn time_that_is_no_number_is_a_mismatch() {
    let point = tree(r#"{"time":"not-a-number","temperature":72.5}"#);
    match Datapoint::decode(point) {
        Err(DecodeError::TypeMismatch(name, expected, actual)) => {
            assert_eq!(name, "time");
            assert_eq!(expected, "integer");
            assert_eq!(actual, ValueTree::String("not-a-number".to_string()));
        },
        other => panic!("{:?}", other),
    }
}

#[test]
fn time_is_required() {
    match Datapoint::decode(tree(r#"{"temperature":72.5}"#)) {
        Err(DecodeError::Missing(name)) => assert_eq!(name, "time"),
        other => panic!("{:?}", other),
    }
}

#[test]
fn integer_field_takes_no_fraction_and_no_negative() {
    match Datapoint::decode(tree(r#"{"time":1000.5}"#)) {
        Err(DecodeError::TypeMismatch(name, expected, actual)) => {
            assert_eq!(name, "time");
            assert_eq!(expected, "integer");
            assert_eq!(actual, ValueTree::Number(Number::Float(1000.5f64.to_bits())));
        },
        other => panic!("{:?}", other),
    }
    match Datapoint::decode(tree(r#"{"time":-1}"#)) {
        Err(DecodeError::TypeMismatch(name, _, actual)) => {
            assert_eq!(name, "time");
            assert_eq!(actual, ValueTree::Number(Number::NegInt(-1)));
        },
        other => panic!("{:?}", other),
    }
    match Datapoint::decode(tree(r#"{"time":1.0}"#)) {
        Err(DecodeError::TypeMismatch(name, _, _)) => assert_eq!(name, "time"),
        other => panic!("{:?}", other),
    }
    let point = Datapoint::decode(tree(r#"{"time":18446744073709551615}"#)).unwrap();
    assert_eq!(point.time, u64::MAX);
}

#[test]
fn floating_field_takes_any_number() {
    let point = Datapoint::decode(tree(
        r#"{"time":1,"temperature":-3,"ozone":300,"moonPhase":0.25,"dewPoint":1e2}"#,
    ))
    .unwrap();
    assert_eq!(point.temperature, Some(Number::NegInt(-3)));
    assert_eq!(point.ozone, Some(Number::PosInt(300)));
    assert_eq!(float(point.moon_phase), Some(0.25));
    assert_eq!(float(point.dew_point), Some(100.0));
}

#[test]
fn present_optional_field_of_wrong_kind_fails() {
    match Datapoint::decode(tree(r#"{"time":1,"summary":5}"#)) {
        Err(DecodeError::TypeMismatch(name, expected, actual)) => {
            assert_eq!(name, "summary");
            assert_eq!(expected, "string");
            assert_eq!(actual, ValueTree::Number(Number::PosInt(5)));
        },
        other => panic!("{:?}", other),
    }
    match Datapoint::decode(tree(r#"{"time":1,"humidity":null}"#)) {
        Err(DecodeError::TypeMismatch(name, expected, actual)) => {
            assert_eq!(name, "humidity");
            assert_eq!(expected, "number");
            assert_eq!(actual, ValueTree::Null);
        },
        other => panic!("{:?}", other),
    }
}

#[test]
fn unknown_icon_is_rejected() {
    let text = r#"{"latitude":1,"longitude":2,"timezone":"UTC","currently":{"time":1,"icon":"lunar-eclipse"}}"#;
    match Forecast::from_json(text) {
        Err(DecodeError::TypeMismatch(name, expected, actual)) => {
            assert_eq!(name, "icon");
            assert_eq!(
                expected,
                "one of clear-day, clear-night, cloudy, fog, hail, partly-cloudy-day, partly-cloudy-night, rain, sleet, snow, thunderstorm, tornado, wind"
            );
            assert_eq!(actual, ValueTree::String("lunar-eclipse".to_string()));
        },
        other => panic!("{:?}", other),
    }
}

#[test]
fn tokens_are_matched_letter_for_letter() {
    match Icon::decode(ValueTree::String("Clear-Day".to_string())) {
        Err(DecodeError::TypeMismatch(name, _, actual)) => {
            assert_eq!(name, "icon");
            assert_eq!(actual, ValueTree::String("Clear-Day".to_string()));
        },
        other => panic!("{:?}", other),
    }
    match Icon::decode(ValueTree::Bool(true)) {
        Err(DecodeError::TypeMismatch(name, _, actual)) => {
            assert_eq!(name, "icon");
            assert_eq!(actual, ValueTree::Bool(true));
        },
        other => panic!("{:?}", other),
    }
    match PrecipitationType::decode(ValueTree::String("hail".to_string())) {
        Err(DecodeError::TypeMismatch(name, expected, _)) => {
            assert_eq!(name, "precipType");
            assert_eq!(expected, "one of rain, sleet, snow");
        },
        other => panic!("{:?}", other),
    }
}

#[test]
fn icon_tokens_round_trip() {
    let all = [
        (Icon::ClearDay, "clear-day"),
        (Icon::ClearNight, "clear-night"),
        (Icon::Cloudy, "cloudy"),
        (Icon::Fog, "fog"),
        (Icon::Hail, "hail"),
        (Icon::PartlyCloudyDay, "partly-cloudy-day"),
        (Icon::PartlyCloudyNight, "partly-cloudy-night"),
        (Icon::Rain, "rain"),
        (Icon::Sleet, "sleet"),
        (Icon::Snow, "snow"),
        (Icon::Thunderstorm, "thunderstorm"),
        (Icon::Tornado, "tornado"),
        (Icon::Wind, "wind"),
    ];
    for (icon, token) in all.iter() {
        assert_eq!(icon.name(), *token);
        assert_eq!(Icon::from_name(token), Some(*icon));
        assert_eq!(Icon::decode(ValueTree::String(icon.name().to_string())).unwrap(), *icon);
    }
    for (i, (_, a)) in all.iter().enumerate() {
        for (k, (_, b)) in all.iter().enumerate() {
            assert_eq!(a == b, i == k);
        }
    }
    assert_eq!(Icon::from_name("lunar-eclipse"), None);
    assert_eq!(Icon::from_name(""), None);
}

#[test]
fn precipitation_tokens_round_trip() {
    let all = [
        (PrecipitationType::Rain, "rain"),
        (PrecipitationType::Sleet, "sleet"),
        (PrecipitationType::Snow, "snow"),
    ];
    for (kind, token) in all.iter() {
        assert_eq!(kind.name(), *token);
        assert_eq!(PrecipitationType::from_name(token), Some(*kind));
        assert_eq!(
            PrecipitationType::decode(ValueTree::String(kind.name().to_string())).unwrap(),
            *kind
        );
    }
}

#[test]
fn array_stops_at_first_malformed_element() {
    let text = r#"{"latitude":1,"longitude":2,"timezone":"UTC","daily":{"data":[{"time":1},{"time":"two"},{"time":3}]}}"#;
    match Forecast::from_json(text) {
        Err(DecodeError::TypeMismatch(name, expected, actual)) => {
            assert_eq!(name, "time");
            assert_eq!(expected, "integer");
            assert_eq!(actual, ValueTree::String("two".to_string()));
        },
        other => panic!("{:?}", other),
    }
    let text = r#"{"latitude":1,"longitude":2,"timezone":"UTC","daily":{"data":[{"time":1},{"temperature":2},{"time":"three"}]}}"#;
    match Forecast::from_json(text) {
        Err(DecodeError::Missing(name)) => assert_eq!(name, "time"),
        other => panic!("{:?}", other),
    }
}

#[test]
fn datablock_keeps_the_order_of_its_data() {
    let block = Datablock::decode(tree(
        r#"{"summary":"Rain","icon":"rain","data":[{"time":3},{"time":1},{"time":2}]}"#,
    ))
    .unwrap();
    assert_eq!(block.summary, Some("Rain".to_string()));
    assert_eq!(block.icon, Some(Icon::Rain));
    let times: Vec<u64> = block.data.unwrap().iter().map(|p| p.time).collect();
    assert_eq!(times, vec![3, 1, 2]);
    let empty = Datablock::decode(tree(r#"{}"#)).unwrap();
    assert_eq!(empty.data, None);
    assert_eq!(empty.icon, None);
    assert_eq!(empty.summary, None);
    let no_data = Datablock::decode(tree(r#"{"data":[]}"#)).unwrap();
    assert_eq!(no_data.data, Some(Vec::new()));
}

#[test]
fn element_of_wrong_kind_is_named_for_its_field() {
    match Datablock::decode(tree(r#"{"data":[{"time":1},7]}"#)) {
        Err(DecodeError::TypeMismatch(name, expected, actual)) => {
            assert_eq!(name, "data");
            assert_eq!(expected, "object");
            assert_eq!(actual, ValueTree::Number(Number::PosInt(7)));
        },
        other => panic!("{:?}", other),
    }
    match Datablock::decode(tree(r#"{"data":{"time":1}}"#)) {
        Err(DecodeError::TypeMismatch(name, expected, _)) => {
            assert_eq!(name, "data");
            assert_eq!(expected, "array");
        },
        other => panic!("{:?}", other),
    }
}

#[test]
fn value_that_is_no_object_names_no_field() {
    match Forecast::decode(ValueTree::Array(Vec::new())) {
        Err(DecodeError::TypeMismatch(name, expected, actual)) => {
            assert_eq!(name, "");
            assert_eq!(expected, "object");
            assert_eq!(actual, ValueTree::Array(Vec::new()));
        },
        other => panic!("{:?}", other),
    }
    match Forecast::from_json(r#"{"latitude":1,"longitude":2,"timezone":"UTC","currently":5}"#) {
        Err(DecodeError::TypeMismatch(name, expected, actual)) => {
            assert_eq!(name, "currently");
            assert_eq!(expected, "object");
            assert_eq!(actual, ValueTree::Number(Number::PosInt(5)));
        },
        other => panic!("{:?}", other),
    }
}

#[test]
fn alerts_decode_and_default_to_none() {
    let text = r#"{"latitude":1,"longitude":2,"timezone":"UTC","offset":-7,"alerts":[{"title":"Flood","description":"Water","uri":"http://a","expires":99},{"title":"Wind","description":"Air","uri":"http://b"}]}"#;
    let forecast = Forecast::from_json(text).unwrap();
    assert_eq!(
        forecast.alerts,
        vec![
            Alert {
                expires: Some(99),
                description: "Water".to_string(),
                title: "Flood".to_string(),
                uri: "http://a".to_string(),
            },
            Alert {
                expires: None,
                description: "Air".to_string(),
                title: "Wind".to_string(),
                uri: "http://b".to_string(),
            },
        ]
    );
    assert_eq!(forecast.offset, Some(Number::NegInt(-7)));
    match Alert::decode(tree(r#"{"title":"Flood","uri":"http://a"}"#)) {
        Err(DecodeError::Missing(name)) => assert_eq!(name, "description"),
        other => panic!("{:?}", other),
    }
    match Forecast::from_json(r#"{"latitude":1,"longitude":2,"timezone":"UTC","alerts":[{"title":"x"}]}"#)
    {
        Err(DecodeError::Missing(name)) => assert_eq!(name, "description"),
        other => panic!("{:?}", other),
    }
}

#[test]
fn flags_decode() {
    let flags = Flags::decode(tree(
        r#"{"sources":["isd","madis"],"isd_stations":["724940-23234"],"units":"us","metno_license":"free"}"#,
    ))
    .unwrap();
    assert_eq!(flags.sources, Some(vec!["isd".to_string(), "madis".to_string()]));
    assert_eq!(flags.isd_stations, Some(vec!["724940-23234".to_string()]));
    assert_eq!(flags.units, Some("us".to_string()));
    assert_eq!(flags.metno_license, Some("free".to_string()));
    assert_eq!(flags.darksky_stations, None);
    assert_eq!(flags.darksky_unavailable, None);
    assert_eq!(flags.datapoint_stations, None);
    assert_eq!(flags.lamp_stations, None);
    assert_eq!(flags.metar_stations, None);
    match Flags::decode(tree(r#"{"sources":["isd",3]}"#)) {
        Err(DecodeError::TypeMismatch(name, expected, actual)) => {
            assert_eq!(name, "sources");
            assert_eq!(expected, "string");
            assert_eq!(actual, ValueTree::Number(Number::PosInt(3)));
        },
        other => panic!("{:?}", other),
    }
}

#[test]
fn fields_that_are_not_declared_are_passed_over() {
    let point = Datapoint::decode(tree(r#"{"time":5,"uvIndex":3,"windGust":1.5}"#)).unwrap();
    assert_eq!(point.time, 5);
}

#[test]
fn first_member_of_a_name_counts() {
    let node = ValueTree::Object(Object {
        members: vec![
            ("time".to_string(), ValueTree::Number(Number::PosInt(1))),
            ("time".to_string(), ValueTree::String("later".to_string())),
        ],
    });
    assert_eq!(Datapoint::decode(node).unwrap().time, 1);
}

#[test]
fn every_field_of_a_datapoint_is_read() {
    let text = r#"{"apparentTemperatureMaxTime":1,"apparentTemperatureMax":2,"apparentTemperatureMinTime":3,"apparentTemperatureMin":4,"apparentTemperature":5,"cloudCoverError":6,"cloudCover":7,"dewPointError":8,"dewPoint":9,"humidityError":10,"humidity":11,"icon":"fog","moonPhase":12,"nearestStormBearing":13,"nearestStormDistance":14,"ozoneError":15,"ozone":16,"precipAccumulationError":17,"precipAccumulation":18,"precipIntensityError":19,"precipIntensityMaxError":20,"precipIntensityMaxTime":21,"precipIntensityMax":22,"precipIntensity":23,"precipProbabilityError":24,"precipProbability":25,"precipType":"snow","pressureError":26,"pressure":27,"summary":"s","sunriseTime":28,"sunsetTime":29,"temperatureMaxError":30,"temperatureMaxTime":31,"temperatureMax":32,"temperatureMinError":33,"temperatureMinTime":34,"temperatureMin":35,"temperatureError":36,"temperature":37,"time":38,"visibilityError":39,"visibility":40,"windBearingError":41,"windBearing":42,"windSpeedError":43,"windSpeed":44}"#;
    let n = |x: u64| Some(Number::PosInt(x));
    let expected = Datapoint {
        apparent_temperature_max_time: Some(1),
        apparent_temperature_max: n(2),
        apparent_temperature_min_time: Some(3),
        apparent_temperature_min: n(4),
        apparent_temperature: n(5),
        cloud_cover_error: n(6),
        cloud_cover: n(7),
        dew_point_error: n(8),
        dew_point: n(9),
        humidity_error: n(10),
        humidity: n(11),
        icon: Some(Icon::Fog),
        moon_phase: n(12),
        nearest_storm_bearing: n(13),
        nearest_storm_distance: n(14),
        ozone_error: n(15),
        ozone: n(16),
        precip_accumulation_error: n(17),
        precip_accumulation: n(18),
        precip_intensity_error: n(19),
        precip_intensity_max_error: n(20),
        precip_intensity_max_time: Some(21),
        precip_intensity_max: n(22),
        precip_intensity: n(23),
        precip_probability_error: n(24),
        precip_probability: n(25),
        precip_type: Some(PrecipitationType::Snow),
        pressure_error: n(26),
        pressure: n(27),
        summary: Some("s".to_string()),
        sunrise_time: Some(28),
        sunset_time: Some(29),
        temperature_max_error: n(30),
        temperature_max_time: Some(31),
        temperature_max: n(32),
        temperature_min_error: n(33),
        temperature_min_time: Some(34),
        temperature_min: n(35),
        temperature_error: n(36),
        temperature: n(37),
        time: 38,
        visibility_error: n(39),
        visibility: n(40),
        wind_bearing_error: n(41),
        wind_bearing: n(42),
        wind_speed_error: n(43),
        wind_speed: n(44),
    };
    assert_eq!(Datapoint::decode(tree(text)).unwrap(), expected);
}

#[test]
fn whole_forecast_decodes() {
    let text = r#"{"latitude":19.2465,"longitude":-99.1013,"timezone":"America/Mexico_City","offset":-6,"currently":{"time":10},"minutely":{"summary":"m","data":[{"time":11}]},"hourly":{"icon":"wind","data":[{"time":12},{"time":13}]},"daily":{"data":[]},"flags":{"units":"si"},"alerts":[]}"#;
    let forecast = Forecast::from_json(text).unwrap();
    assert_eq!(forecast.currently.unwrap().time, 10);
    let minutely = forecast.minutely.unwrap();
    assert_eq!(minutely.summary, Some("m".to_string()));
    assert_eq!(minutely.data.unwrap().len(), 1);
    let hourly = forecast.hourly.unwrap();
    assert_eq!(hourly.icon, Some(Icon::Wind));
    assert_eq!(hourly.data.unwrap().len(), 2);
    assert_eq!(forecast.daily.unwrap().data, Some(Vec::new()));
    assert_eq!(forecast.flags.unwrap().units, Some("si".to_string()));
    assert!(forecast.alerts.is_empty());
    assert_eq!(forecast.timezone, "America/Mexico_City");
}
