//! The languages of the summaries.

use crate::error::{outcome, DecodeError, Failure};
use crate::extract::fails_by_decoding;
use crate::value::{same, Json, ValueTree};
use vstd::prelude::*;

verus! {

/// The language in which the API writes its summaries. English is what it
/// writes where none is asked for.
#[derive(Copy, Clone, Debug, PartialEq, Eq, Structural, PartialOrd, Ord, Hash)]
pub enum Language {
    /// Arabic
    Ar,
    /// Azerbaijani
    Az,
    /// Belarusian
    Be,
    /// Bosnian
    Bs,
    /// Czech
    Cs,
    /// German
    De,
    /// Greek
    El,
    /// English
    En,
    /// Spanish
    Es,
    /// French
    Fr,
    /// Croatian
    Hr,
    /// Hungarian
    Hu,
    /// Indonesian
    Id,
    /// Italian
    It,
    /// Icelandic
    Is,
    /// Cornish
    Kw,
    /// Norwegian Bokmal
    Nb,
    /// Dutch
    Nl,
    /// Polish
    Pl,
    /// Portuguese
    Pt,
    /// Russian
    Ru,
    /// Slovak
    Sk,
    /// Serbian
    Sr,
    /// Swedish
    Sv,
    /// Tetum
    Tet,
    /// Turkish
    Tr,
    /// Ukrainian
    Uk,
    /// Igpay Atinlay
    XPigLatin,
    /// Simplified Chinese
    Zh,
    /// Traditional Chinese
    ZhTw,
}

impl View for Language {
    type V = Language;

    open spec fn view(&self) -> Language {
        *self
    }
}

impl DeepView for Language {
    type V = Language;

    open spec fn deep_view(&self) -> Language {
        *self
    }
}

impl Language {
    /// The token of this variant, as the API writes it.
    pub open spec fn token(self) -> Seq<char> {
        match self {
            Language::Ar => "ar"@,
            Language::Az => "az"@,
            Language::Be => "be"@,
            Language::Bs => "bs"@,
            Language::Cs => "cs"@,
            Language::De => "de"@,
            Language::El => "el"@,
            Language::En => "en"@,
            Language::Es => "es"@,
            Language::Fr => "fr"@,
            Language::Hr => "hr"@,
            Language::Hu => "hu"@,
            Language::Id => "id"@,
            Language::It => "it"@,
            Language::Is => "is"@,
            Language::Kw => "kw"@,
            Language::Nb => "nb"@,
            Language::Nl => "nl"@,
            Language::Pl => "pl"@,
            Language::Pt => "pt"@,
            Language::Ru => "ru"@,
            Language::Sk => "sk"@,
            Language::Sr => "sr"@,
            Language::Sv => "sv"@,
            Language::Tet => "tet"@,
            Language::Tr => "tr"@,
            Language::Uk => "uk"@,
            Language::XPigLatin => "x-pig-latin"@,
            Language::Zh => "zh"@,
            Language::ZhTw => "zh-tw"@,
        }
    }

    /// The variant that the token `s` stands for: tokens are matched letter for
    /// letter, and a string that is no token stands for none.
    pub open spec fn from_token(s: Seq<char>) -> Option<Language> {
        if s == "ar"@ {
            Some(Language::Ar)
        } else if s == "az"@ {
            Some(Language::Az)
        } else if s == "be"@ {
            Some(Language::Be)
        } else if s == "bs"@ {
            Some(Language::Bs)
        } else if s == "cs"@ {
            Some(Language::Cs)
        } else if s == "de"@ {
            Some(Language::De)
        } else if s == "el"@ {
            Some(Language::El)
        } else if s == "en"@ {
            Some(Language::En)
        } else if s == "es"@ {
            Some(Language::Es)
        } else if s == "fr"@ {
            Some(Language::Fr)
        } else if s == "hr"@ {
            Some(Language::Hr)
        } else if s == "hu"@ {
            Some(Language::Hu)
        } else if s == "id"@ {
            Some(Language::Id)
        } else if s == "it"@ {
            Some(Language::It)
        } else if s == "is"@ {
            Some(Language::Is)
        } else if s == "kw"@ {
            Some(Language::Kw)
        } else if s == "nb"@ {
            Some(Language::Nb)
        } else if s == "nl"@ {
            Some(Language::Nl)
        } else if s == "pl"@ {
            Some(Language::Pl)
        } else if s == "pt"@ {
            Some(Language::Pt)
        } else if s == "ru"@ {
            Some(Language::Ru)
        } else if s == "sk"@ {
            Some(Language::Sk)
        } else if s == "sr"@ {
            Some(Language::Sr)
        } else if s == "sv"@ {
            Some(Language::Sv)
        } else if s == "tet"@ {
            Some(Language::Tet)
        } else if s == "tr"@ {
            Some(Language::Tr)
        } else if s == "uk"@ {
            Some(Language::Uk)
        } else if s == "x-pig-latin"@ {
            Some(Language::XPigLatin)
        } else if s == "zh"@ {
            Some(Language::Zh)
        } else if s == "zh-tw"@ {
            Some(Language::ZhTw)
        } else {
            None
        }
    }

    /// The name of the field that holds a `Language`.
    pub open spec fn label() -> Seq<char> {
        "lang"@
    }

    /// What is expected where a `Language` is decoded: the known tokens.
    pub open spec fn expected() -> Seq<char> {
        "one of ar, az, be, bs, cs, de, el, en, es, fr, hr, hu, id, it, is, kw, nb, nl, pl, pt, ru, sk, sr, sv, tet, tr, uk, x-pig-latin, zh, zh-tw"@
    }

    /// What a value decodes to: the variant of its token, where it is a string
    /// and a known token.
    pub open spec fn decoded(j: Json) -> Result<Language, Failure> {
        match j {
            Json::String(s) => match Self::from_token(s) {
                Some(v) => Ok(v),
                None => Err(Failure::TypeMismatch(Self::label(), Self::expected(), j)),
            },
            _ => Err(Failure::TypeMismatch(Self::label(), Self::expected(), j)),
        }
    }

    /// The token of this variant.
    pub fn name(&self) -> (r: &'static str)
        ensures
            r@ == self.token(),
    {
        match *self {
            Language::Ar => "ar",
            Language::Az => "az",
            Language::Be => "be",
            Language::Bs => "bs",
            Language::Cs => "cs",
            Language::De => "de",
            Language::El => "el",
            Language::En => "en",
            Language::Es => "es",
            Language::Fr => "fr",
            Language::Hr => "hr",
            Language::Hu => "hu",
            Language::Id => "id",
            Language::It => "it",
            Language::Is => "is",
            Language::Kw => "kw",
            Language::Nb => "nb",
            Language::Nl => "nl",
            Language::Pl => "pl",
            Language::Pt => "pt",
            Language::Ru => "ru",
            Language::Sk => "sk",
            Language::Sr => "sr",
            Language::Sv => "sv",
            Language::Tet => "tet",
            Language::Tr => "tr",
            Language::Uk => "uk",
            Language::XPigLatin => "x-pig-latin",
            Language::Zh => "zh",
            Language::ZhTw => "zh-tw",
        }
    }

    /// The variant that the token `s` stands for.
    pub fn from_name(s: &str) -> (r: Option<Language>)
        ensures
            r == Self::from_token(s@),
    {
        if same(s, "ar") {
            Some(Language::Ar)
        } else if same(s, "az") {
            Some(Language::Az)
        } else if same(s, "be") {
            Some(Language::Be)
        } else if same(s, "bs") {
            Some(Language::Bs)
        } else if same(s, "cs") {
            Some(Language::Cs)
        } else if same(s, "de") {
            Some(Language::De)
        } else if same(s, "el") {
            Some(Language::El)
        } else if same(s, "en") {
            Some(Language::En)
        } else if same(s, "es") {
            Some(Language::Es)
        } else if same(s, "fr") {
            Some(Language::Fr)
        } else if same(s, "hr") {
            Some(Language::Hr)
        } else if same(s, "hu") {
            Some(Language::Hu)
        } else if same(s, "id") {
            Some(Language::Id)
        } else if same(s, "it") {
            Some(Language::It)
        } else if same(s, "is") {
            Some(Language::Is)
        } else if same(s, "kw") {
            Some(Language::Kw)
        } else if same(s, "nb") {
            Some(Language::Nb)
        } else if same(s, "nl") {
            Some(Language::Nl)
        } else if same(s, "pl") {
            Some(Language::Pl)
        } else if same(s, "pt") {
            Some(Language::Pt)
        } else if same(s, "ru") {
            Some(Language::Ru)
        } else if same(s, "sk") {
            Some(Language::Sk)
        } else if same(s, "sr") {
            Some(Language::Sr)
        } else if same(s, "sv") {
            Some(Language::Sv)
        } else if same(s, "tet") {
            Some(Language::Tet)
        } else if same(s, "tr") {
            Some(Language::Tr)
        } else if same(s, "uk") {
            Some(Language::Uk)
        } else if same(s, "x-pig-latin") {
            Some(Language::XPigLatin)
        } else if same(s, "zh") {
            Some(Language::Zh)
        } else if same(s, "zh-tw") {
            Some(Language::ZhTw)
        } else {
            None
        }
    }

    /// Decodes a value that has to be the token of a `Language`. Any other
    /// value is a mismatch in the field `lang`: no variant stands in for an
    /// unknown token.
    pub fn decode(value: ValueTree) -> (r: Result<Language, DecodeError>)
        ensures
            outcome(r) == Self::decoded(value@),
    {
        let found = match &value {
            ValueTree::String(s) => Self::from_name(s.as_str()),
            _ => None,
        };
        match found {
            Some(v) => Ok(v),
            None => Err(
                DecodeError::TypeMismatch(
                    "lang".to_owned(),
                    "one of ar, az, be, bs, cs, de, el, en, es, fr, hr, hu, id, it, is, kw, nb, nl, pl, pt, ru, sk, sr, sv, tet, tr, uk, x-pig-latin, zh, zh-tw".to_owned(),
                    value,
                ),
            ),
        }
    }

    /// Decoding the token of a variant gives that variant back.
    pub proof fn round_trip(v: Language)
        ensures
            Self::from_token(v.token()) == Some(v),
            Self::decoded(Json::String(v.token())) == Ok::<Language, Failure>(v),
    {
        reveal_strlit("ar");
        reveal_strlit("az");
        reveal_strlit("be");
        reveal_strlit("bs");
        reveal_strlit("cs");
        reveal_strlit("de");
        reveal_strlit("el");
        reveal_strlit("en");
        reveal_strlit("es");
        reveal_strlit("fr");
        reveal_strlit("hr");
        reveal_strlit("hu");
        reveal_strlit("id");
        reveal_strlit("it");
        reveal_strlit("is");
        reveal_strlit("kw");
        reveal_strlit("nb");
        reveal_strlit("nl");
        reveal_strlit("pl");
        reveal_strlit("pt");
        reveal_strlit("ru");
        reveal_strlit("sk");
        reveal_strlit("sr");
        reveal_strlit("sv");
        reveal_strlit("tet");
        reveal_strlit("tr");
        reveal_strlit("uk");
        reveal_strlit("x-pig-latin");
        reveal_strlit("zh");
        reveal_strlit("zh-tw");
        assert("ar"@ =~= seq!['a', 'r']);
        assert("az"@ =~= seq!['a', 'z']);
        assert("be"@ =~= seq!['b', 'e']);
        assert("bs"@ =~= seq!['b', 's']);
        assert("cs"@ =~= seq!['c', 's']);
        assert("de"@ =~= seq!['d', 'e']);
        assert("el"@ =~= seq!['e', 'l']);
        assert("en"@ =~= seq!['e', 'n']);
        assert("es"@ =~= seq!['e', 's']);
        assert("fr"@ =~= seq!['f', 'r']);
        assert("hr"@ =~= seq!['h', 'r']);
        assert("hu"@ =~= seq!['h', 'u']);
        assert("id"@ =~= seq!['i', 'd']);
        assert("it"@ =~= seq!['i', 't']);
        assert("is"@ =~= seq!['i', 's']);
        assert("kw"@ =~= seq!['k', 'w']);
        assert("nb"@ =~= seq!['n', 'b']);
        assert("nl"@ =~= seq!['n', 'l']);
        assert("pl"@ =~= seq!['p', 'l']);
        assert("pt"@ =~= seq!['p', 't']);
        assert("ru"@ =~= seq!['r', 'u']);
        assert("sk"@ =~= seq!['s', 'k']);
        assert("sr"@ =~= seq!['s', 'r']);
        assert("sv"@ =~= seq!['s', 'v']);
        assert("tet"@ =~= seq!['t', 'e', 't']);
        assert("tr"@ =~= seq!['t', 'r']);
        assert("uk"@ =~= seq!['u', 'k']);
        assert("x-pig-latin"@ =~= seq!['x', '-', 'p', 'i', 'g', '-', 'l', 'a', 't', 'i', 'n']);
        assert("zh"@ =~= seq!['z', 'h']);
        assert("zh-tw"@ =~= seq!['z', 'h', '-', 't', 'w']);
    }

    /// No two variants share a token.
    pub proof fn tokens_differ(a: Language, b: Language)
        ensures
            a.token() == b.token() ==> a == b,
    {
        Self::round_trip(a);
        Self::round_trip(b);
    }

    /// A string that is the token of no variant decodes to no variant: it is a
    /// mismatch in the field `lang` that holds the string as it was found.
    pub proof fn unknown_token(s: Seq<char>)
        requires
            forall|v: Language| v.token() != s,
        ensures
            Self::from_token(s).is_none(),
            Self::decoded(Json::String(s)) == Err::<Language, Failure>(
                Failure::TypeMismatch(Self::label(), Self::expected(), Json::String(s)),
            ),
    {
        assert(Language::Ar.token() != s);
        assert(Language::Az.token() != s);
        assert(Language::Be.token() != s);
        assert(Language::Bs.token() != s);
        assert(Language::Cs.token() != s);
        assert(Language::De.token() != s);
        assert(Language::El.token() != s);
        assert(Language::En.token() != s);
        assert(Language::Es.token() != s);
        assert(Language::Fr.token() != s);
        assert(Language::Hr.token() != s);
        assert(Language::Hu.token() != s);
        assert(Language::Id.token() != s);
        assert(Language::It.token() != s);
        assert(Language::Is.token() != s);
        assert(Language::Kw.token() != s);
        assert(Language::Nb.token() != s);
        assert(Language::Nl.token() != s);
        assert(Language::Pl.token() != s);
        assert(Language::Pt.token() != s);
        assert(Language::Ru.token() != s);
        assert(Language::Sk.token() != s);
        assert(Language::Sr.token() != s);
        assert(Language::Sv.token() != s);
        assert(Language::Tet.token() != s);
        assert(Language::Tr.token() != s);
        assert(Language::Uk.token() != s);
        assert(Language::XPigLatin.token() != s);
        assert(Language::Zh.token() != s);
        assert(Language::ZhTw.token() != s);
    }

    /// Decoding a `Language` fails only by decoding: with a mismatch.
    pub proof fn fails_by_decoding()
        ensures
            fails_by_decoding(|j: Json| Self::decoded(j)),
    {
    }

    /// A string stands for a variant only where it is that variant's token.
    pub proof fn from_token_is_exact(s: Seq<char>, v: Language)
        ensures
            Self::from_token(s) == Some(v) <==> s == v.token(),
    {
        Self::round_trip(v);
    }
}

} // verus!
