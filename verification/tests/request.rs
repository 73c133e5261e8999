use darksky::{
    forecast_uri, forecast_uri_with_options, Block, DecodeError, Language, Options, Unit,
    ValueTree,
};

const LANGUAGES: [(Language, &str); 30] = [
    (Language::Ar, "ar"),
    (Language::Az, "az"),
    (Language::Be, "be"),
    (Language::Bs, "bs"),
    (Language::Cs, "cs"),
    (Language::De, "de"),
    (Language::El, "el"),
    (Language::En, "en"),
    (Language::Es, "es"),
    (Language::Fr, "fr"),
    (Language::Hr, "hr"),
    (Language::Hu, "hu"),
    (Language::Id, "id"),
    (Language::It, "it"),
    (Language::Is, "is"),
    (Language::Kw, "kw"),
    (Language::Nb, "nb"),
    (Language::Nl, "nl"),
    (Language::Pl, "pl"),
    (Language::Pt, "pt"),
    (Language::Ru, "ru"),
    (Language::Sk, "sk"),
    (Language::Sr, "sr"),
    (Language::Sv, "sv"),
    (Language::Tet, "tet"),
    (Language::Tr, "tr"),
    (Language::Uk, "uk"),
    (Language::XPigLatin, "x-pig-latin"),
    (Language::Zh, "zh"),
    (Language::ZhTw, "zh-tw"),
];

#[test]
fn language_tokens_round_trip() {
    for (language, token) in LANGUAGES.iter() {
        assert_eq!(language.name(), *token);
        assert_eq!(Language::from_name(token), Some(*language));
        assert_eq!(
            Language::decode(ValueTree::String(language.name().to_string())).unwrap(),
            *language
        );
    }
    for (i, (_, a)) in LANGUAGES.iter().enumerate() {
        for (k, (_, b)) in LANGUAGES.iter().enumerate() {
            assert_eq!(a == b, i == k);
        }
    }
    assert_eq!(Language::from_name("EN"), None);
    assert_eq!(Language::from_name("zh-"), None);
}

#[test]
fn block_tokens_round_trip() {
    let all = [
        (Block::Currently, "currently"),
        (Block::Daily, "daily"),
        (Block::Flags, "flags"),
        (Block::Hourly, "hourly"),
        (Block::Minutely, "minutely"),
    ];
    for (block, token) in all.iter() {
        assert_eq!(block.name(), *token);
        assert_eq!(Block::from_name(token), Some(*block));
        assert_eq!(Block::decode(ValueTree::String(block.name().to_string())).unwrap(), *block);
    }
    match Block::decode(ValueTree::String("weekly".to_string())) {
        Err(DecodeError::TypeMismatch(name, expected, actual)) => {
            assert_eq!(name, "exclude");
            assert_eq!(expected, "one of currently, daily, flags, hourly, minutely");
            assert_eq!(actual, ValueTree::String("weekly".to_string()));
        },
        other => panic!("{:?}", other),
    }
}

#[test]
fn unit_tokens_round_trip() {
    let all = [
        (Unit::Auto, "auto"),
        (Unit::Ca, "ca"),
        (Unit::Si, "si"),
        (Unit::Uk2, "uk2"),
        (Unit::Us, "us"),
    ];
    for (unit, token) in all.iter() {
        assert_eq!(unit.name(), *token);
        assert_eq!(Unit::from_name(token), Some(*unit));
        assert_eq!(Unit::decode(ValueTree::String(unit.name().to_string())).unwrap(), *unit);
    }
    match Unit::decode(ValueTree::String("metric".to_string())) {
        Err(DecodeError::TypeMismatch(name, expected, _)) => {
            assert_eq!(name, "units");
            assert_eq!(expected, "one of auto, ca, si, uk2, us");
        },
        other => panic!("{:?}", other),
    }
    match Language::decode(ValueTree::Null) {
        Err(DecodeError::TypeMismatch(name, _, actual)) => {
            assert_eq!(name, "lang");
            assert_eq!(actual, ValueTree::Null);
        },
        other => panic!("{:?}", other),
    }
}

#[test]
fn default_options_have_an_empty_query() {
    assert_eq!(Options::default().query(), "");
}

#[test]
fn options_write_their_query() {
    let options = Options::default()
        .exclude(vec![Block::Currently, Block::Daily])
        .extend_hourly()
        .language(Language::Es)
        .unit(Unit::Si);
    assert_eq!(options.query(), "exclude=currently,daily&extend=hourly&lang=es&units=si&");
}

#[test]
fn query_does_not_depend_on_the_order_of_the_calls() {
    let options = Options::default()
        .unit(Unit::Uk2)
        .language(Language::XPigLatin)
        .extend_hourly()
        .exclude(vec![Block::Minutely]);
    assert_eq!(options.query(), "exclude=minutely&extend=hourly&lang=x-pig-latin&units=uk2&");
}

#[test]
fn later_call_replaces_earlier() {
    let options = Options::default()
        .unit(Unit::Us)
        .unit(Unit::Ca)
        .exclude(vec![Block::Flags])
        .exclude(vec![Block::Hourly, Block::Flags, Block::Hourly]);
    assert_eq!(options.query(), "exclude=hourly,flags,hourly&units=ca&");
}

#[test]
fn exclude_of_nothing_is_still_set() {
    assert_eq!(Options::default().exclude(Vec::new()).query(), "exclude=&");
    assert_eq!(Options::default().exclude(vec![Block::Daily]).query(), "exclude=daily&");
}

#[test]
fn address_without_options_asks_for_auto_units() {
    assert_eq!(
        forecast_uri("TOKEN", "37.8267", "-122.423"),
        "https://api.darksky.net/forecast/TOKEN/37.8267,-122.423?units=auto"
    );
}

#[test]
fn address_with_options_carries_the_query() {
    let options = Options::default().exclude(vec![Block::Minutely]).extend_hourly();
    assert_eq!(
        forecast_uri_with_options("TOKEN", "19.2465", "-99.1013", &options),
        "https://api.darksky.net/forecast/TOKEN/19.2465,-99.1013?exclude=minutely&extend=hourly&"
    );
    assert_eq!(
        forecast_uri_with_options("t", "1", "2", &Options::default()),
        "https://api.darksky.net/forecast/t/1,2?"
    );
}
