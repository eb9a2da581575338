use edgecord::i18n::Locales;

#[test]
fn test_locale_1() {
    assert_eq!(Locales::EnGB.to_json_string(), "\"en-GB\"")
}

#[test]
fn test_locale_2() {
    assert_eq!(Locales::Ja.to_json_string(), "\"ja\"")
}

#[test]
fn locale_code_round_trip() {
    let all = [
        Locales::Da,
        Locales::De,
        Locales::EnGB,
        Locales::EnUS,
        Locales::EsES,
        Locales::Fr,
        Locales::Hr,
        Locales::It,
        Locales::Lt,
        Locales::Hu,
        Locales::Nl,
        Locales::No,
        Locales::Pl,
        Locales::PtBR,
        Locales::Ro,
        Locales::Fi,
        Locales::SvSE,
        Locales::Vi,
        Locales::Tr,
        Locales::Cs,
        Locales::El,
        Locales::Bg,
        Locales::Ru,
        Locales::Uk,
        Locales::Hi,
        Locales::Th,
        Locales::ZhCN,
        Locales::Ja,
        Locales::ZhTW,
        Locales::Ko,
    ];
    for locale in all {
        assert_eq!(Locales::from_code(locale.code()), Some(locale));
    }
}

#[test]
fn locale_unknown_code() {
    assert_eq!(Locales::from_code("xx"), None);
    assert_eq!(Locales::from_code(""), None);
    assert_eq!(Locales::from_code("en-gb"), None);
}
