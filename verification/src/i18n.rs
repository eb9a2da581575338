//! Discord interface locales and their wire codes.

use vstd::prelude::*;
use vstd::string::StringExecFns;
use crate::text::str_eq;

verus! {

/// The locales Discord localizes command names and descriptions for.
#[derive(Debug, Clone, Copy, PartialEq, Eq, Structural, Hash)]
pub enum Locales {
    Da,
    De,
    EnGB,
    EnUS,
    EsES,
    Fr,
    Hr,
    It,
    Lt,
    Hu,
    Nl,
    No,
    Pl,
    PtBR,
    Ro,
    Fi,
    SvSE,
    Vi,
    Tr,
    Cs,
    El,
    Bg,
    Ru,
    Uk,
    Hi,
    Th,
    ZhCN,
    Ja,
    ZhTW,
    Ko,
}

impl Locales {
    /// The locale's wire code, as it appears in interaction payloads and in
    /// localization maps.
    pub open spec fn spec_code(self) -> Seq<char> {
        match self {
            Locales::Da => "da"@,
            Locales::De => "de"@,
            Locales::EnGB => "en-GB"@,
            Locales::EnUS => "en-US"@,
            Locales::EsES => "es-ES"@,
            Locales::Fr => "fr"@,
            Locales::Hr => "hr"@,
            Locales::It => "it"@,
            Locales::Lt => "lt"@,
            Locales::Hu => "hu"@,
            Locales::Nl => "nl"@,
            Locales::No => "no"@,
            Locales::Pl => "pl"@,
            Locales::PtBR => "pt-BR"@,
            Locales::Ro => "ro"@,
            Locales::Fi => "fi"@,
            Locales::SvSE => "sv-SE"@,
            Locales::Vi => "vi"@,
            Locales::Tr => "tr"@,
            Locales::Cs => "cs"@,
            Locales::El => "el"@,
            Locales::Bg => "bg"@,
            Locales::Ru => "ru"@,
            Locales::Uk => "uk"@,
            Locales::Hi => "hi"@,
            Locales::Th => "th"@,
            Locales::ZhCN => "zh-CN"@,
            Locales::Ja => "ja"@,
            Locales::ZhTW => "zh-TW"@,
            Locales::Ko => "ko"@,
        }
    }

    /// The locale that a wire code names, if any.
    pub open spec fn spec_from_code(s: Seq<char>) -> Option<Locales> {
        if s == "da"@ {
            Some(Locales::Da)
        } else if s == "de"@ {
            Some(Locales::De)
        } else if s == "en-GB"@ {
            Some(Locales::EnGB)
        } else if s == "en-US"@ {
            Some(Locales::EnUS)
        } else if s == "es-ES"@ {
            Some(Locales::EsES)
        } else if s == "fr"@ {
            Some(Locales::Fr)
        } else if s == "hr"@ {
            Some(Locales::Hr)
        } else if s == "it"@ {
            Some(Locales::It)
        } else if s == "lt"@ {
            Some(Locales::Lt)
        } else if s == "hu"@ {
            Some(Locales::Hu)
        } else if s == "nl"@ {
            Some(Locales::Nl)
        } else if s == "no"@ {
            Some(Locales::No)
        } else if s == "pl"@ {
            Some(Locales::Pl)
        } else if s == "pt-BR"@ {
            Some(Locales::PtBR)
        } else if s == "ro"@ {
            Some(Locales::Ro)
        } else if s == "fi"@ {
            Some(Locales::Fi)
        } else if s == "sv-SE"@ {
            Some(Locales::SvSE)
        } else if s == "vi"@ {
            Some(Locales::Vi)
        } else if s == "tr"@ {
            Some(Locales::Tr)
        } else if s == "cs"@ {
            Some(Locales::Cs)
        } else if s == "el"@ {
            Some(Locales::El)
        } else if s == "bg"@ {
            Some(Locales::Bg)
        } else if s == "ru"@ {
            Some(Locales::Ru)
        } else if s == "uk"@ {
            Some(Locales::Uk)
        } else if s == "hi"@ {
            Some(Locales::Hi)
        } else if s == "th"@ {
            Some(Locales::Th)
        } else if s == "zh-CN"@ {
            Some(Locales::ZhCN)
        } else if s == "ja"@ {
            Some(Locales::Ja)
        } else if s == "zh-TW"@ {
            Some(Locales::ZhTW)
        } else if s == "ko"@ {
            Some(Locales::Ko)
        } else {
            None
        }
    }

    /// Returns the locale's wire code.
    pub fn code(&self) -> (r: &'static str)
        ensures
            r@ == self.spec_code(),
    {
        match self {
            Locales::Da => "da",
            Locales::De => "de",
            Locales::EnGB => "en-GB",
            Locales::EnUS => "en-US",
            Locales::EsES => "es-ES",
            Locales::Fr => "fr",
            Locales::Hr => "hr",
            Locales::It => "it",
            Locales::Lt => "lt",
            Locales::Hu => "hu",
            Locales::Nl => "nl",
            Locales::No => "no",
            Locales::Pl => "pl",
            Locales::PtBR => "pt-BR",
            Locales::Ro => "ro",
            Locales::Fi => "fi",
            Locales::SvSE => "sv-SE",
            Locales::Vi => "vi",
            Locales::Tr => "tr",
            Locales::Cs => "cs",
            Locales::El => "el",
            Locales::Bg => "bg",
            Locales::Ru => "ru",
            Locales::Uk => "uk",
            Locales::Hi => "hi",
            Locales::Th => "th",
            Locales::ZhCN => "zh-CN",
            Locales::Ja => "ja",
            Locales::ZhTW => "zh-TW",
            Locales::Ko => "ko",
        }
    }

    /// Parses a wire code back into a locale.
    pub fn from_code(s: &str) -> (r: Option<Locales>)
        ensures
            r == Self::spec_from_code(s@),
    {
        if str_eq(s, "da") {
            Some(Locales::Da)
        } else if str_eq(s, "de") {
            Some(Locales::De)
        } else if str_eq(s, "en-GB") {
            Some(Locales::EnGB)
        } else if str_eq(s, "en-US") {
            Some(Locales::EnUS)
        } else if str_eq(s, "es-ES") {
            Some(Locales::EsES)
        } else if str_eq(s, "fr") {
            Some(Locales::Fr)
        } else if str_eq(s, "hr") {
            Some(Locales::Hr)
        } else if str_eq(s, "it") {
            Some(Locales::It)
        } else if str_eq(s, "lt") {
            Some(Locales::Lt)
        } else if str_eq(s, "hu") {
            Some(Locales::Hu)
        } else if str_eq(s, "nl") {
            Some(Locales::Nl)
        } else if str_eq(s, "no") {
            Some(Locales::No)
        } else if str_eq(s, "pl") {
            Some(Locales::Pl)
        } else if str_eq(s, "pt-BR") {
            Some(Locales::PtBR)
        } else if str_eq(s, "ro") {
            Some(Locales::Ro)
        } else if str_eq(s, "fi") {
            Some(Locales::Fi)
        } else if str_eq(s, "sv-SE") {
            Some(Locales::SvSE)
        } else if str_eq(s, "vi") {
            Some(Locales::Vi)
        } else if str_eq(s, "tr") {
            Some(Locales::Tr)
        } else if str_eq(s, "cs") {
            Some(Locales::Cs)
        } else if str_eq(s, "el") {
            Some(Locales::El)
        } else if str_eq(s, "bg") {
            Some(Locales::Bg)
        } else if str_eq(s, "ru") {
            Some(Locales::Ru)
        } else if str_eq(s, "uk") {
            Some(Locales::Uk)
        } else if str_eq(s, "hi") {
            Some(Locales::Hi)
        } else if str_eq(s, "th") {
            Some(Locales::Th)
        } else if str_eq(s, "zh-CN") {
            Some(Locales::ZhCN)
        } else if str_eq(s, "ja") {
            Some(Locales::Ja)
        } else if str_eq(s, "zh-TW") {
            Some(Locales::ZhTW)
        } else if str_eq(s, "ko") {
            Some(Locales::Ko)
        } else {
            None
        }
    }

    /// The locale's JSON rendering: its wire code in double quotes.
    pub open spec fn spec_json(self) -> Seq<char> {
        seq!['"'] + self.spec_code() + seq!['"']
    }

    /// Renders the locale as a JSON string.
    pub fn to_json_string(&self) -> (r: String)
        ensures
            r@ == self.spec_json(),
    {
        let mut out = String::new();
        out.push('"');
        out.append(self.code());
        out.push('"');
        proof {
            assert(out@ =~= self.spec_json());
        }
        out
    }
}

} // verus!
