use mediaframe::lang::{Language, LanguageError};
use std::str::FromStr;

#[test]
fn default_is_und() {
    let l = Language::default();
    assert_eq!(l.language(), "und");
    assert!(l.script().is_none());
    assert!(l.region().is_none());
    assert!(l.is_undetermined());
}

#[test]
fn from_bcp47_lang_only() {
    let l = Language::from_bcp47("en").unwrap();
    assert_eq!(l.language(), "en");
    assert!(l.script().is_none());
    assert!(l.region().is_none());
    assert!(!l.is_undetermined());
    assert_eq!(l.to_bcp47(), "en");
}

#[test]
fn from_bcp47_lang_region() {
    let l = Language::from_bcp47("en-US").unwrap();
    assert_eq!(l.language(), "en");
    assert_eq!(l.region(), Some("US"));
    assert!(l.script().is_none());
    assert_eq!(l.to_bcp47(), "en-US");
}

#[test]
fn from_bcp47_lang_script_region() {
    let l = Language::from_bcp47("zh-Hant-TW").unwrap();
    assert_eq!(l.language(), "zh");
    assert_eq!(l.script(), Some("Hant"));
    assert_eq!(l.region(), Some("TW"));
    assert_eq!(l.to_bcp47(), "zh-Hant-TW");
}

#[test]
fn from_bcp47_und() {
    let l = Language::from_bcp47("und").unwrap();
    assert!(l.is_undetermined());
    assert_eq!(l.to_bcp47(), "und");
}

#[test]
fn from_bcp47_rejects_bogus() {
    let err = Language::from_bcp47("xx-yy-zz-bogus").unwrap_err();
    assert!(matches!(err, LanguageError::MalformedBcp47(_)));
}

#[test]
fn try_new_components() {
    let l = Language::try_new("en", None, Some("US")).unwrap();
    assert_eq!(l.language(), "en");
    assert_eq!(l.region(), Some("US"));

    let l = Language::try_new("zh", Some("Hant"), Some("TW")).unwrap();
    assert_eq!(l.script(), Some("Hant"));
    assert_eq!(l.region(), Some("TW"));
}

#[test]
fn try_new_rejects_each_subtag() {
    assert!(matches!(
        Language::try_new("!!", None, None),
        Err(LanguageError::InvalidLanguage(_))
    ));
    assert!(matches!(
        Language::try_new("en", Some("###"), None),
        Err(LanguageError::InvalidScript(_))
    ));
    assert!(matches!(
        Language::try_new("en", None, Some("###")),
        Err(LanguageError::InvalidRegion(_))
    ));
}

#[test]
fn from_str_smoke() {
    let l: Language = "en-US".parse().unwrap();
    assert_eq!(l.language(), "en");
    assert_eq!(l.region(), Some("US"));
}

#[test]
fn display_round_trip() {
    let l = Language::from_bcp47("zh-Hant-TW").unwrap();
    let rendered = l.to_bcp47();
    assert_eq!(rendered, "zh-Hant-TW");
    let parsed = Language::from_str(&rendered).unwrap();
    assert_eq!(parsed, l);
}

#[test]
fn new_equals_default() {
    assert_eq!(Language::new(), Language::default());
    assert_eq!(Language::new().to_bcp47(), "und");
}

#[test]
fn from_bcp47_normalizes_case() {
    let l = Language::from_bcp47("ZH-hant-tw").unwrap();
    assert_eq!(l.language(), "zh");
    assert_eq!(l.script(), Some("Hant"));
    assert_eq!(l.region(), Some("TW"));
    assert_eq!(l.to_bcp47(), "zh-Hant-TW");
}

#[test]
fn from_bcp47_numeric_region_and_dropped_variant() {
    let l = Language::from_bcp47("es-419").unwrap();
    assert_eq!(l.region(), Some("419"));
    assert_eq!(l.to_bcp47(), "es-419");

    let l = Language::from_bcp47("de-DE-1996").unwrap();
    assert_eq!(l.language(), "de");
    assert_eq!(l.region(), Some("DE"));
    assert_eq!(l.to_bcp47(), "de-DE");
}

#[test]
fn from_bcp47_reports_whole_text() {
    assert_eq!(
        Language::from_bcp47("en_US"),
        Err(LanguageError::MalformedBcp47("en_US".to_string()))
    );
    assert_eq!(
        Language::from_bcp47(""),
        Err(LanguageError::MalformedBcp47(String::new()))
    );
    assert_eq!(
        Language::from_bcp47("en-"),
        Err(LanguageError::MalformedBcp47("en-".to_string()))
    );
}

#[test]
fn try_new_normalizes_and_reports_text() {
    let l = Language::try_new("EN", Some("latn"), Some("us")).unwrap();
    assert_eq!(l.to_bcp47(), "en-Latn-US");

    assert_eq!(
        Language::try_new("english", None, None),
        Err(LanguageError::InvalidLanguage("english".to_string()))
    );
    assert_eq!(
        Language::try_new("en", Some("Latin"), Some("??")),
        Err(LanguageError::InvalidScript("Latin".to_string()))
    );
    assert_eq!(
        Language::try_new("en", Some("Latn"), Some("U5")),
        Err(LanguageError::InvalidRegion("U5".to_string()))
    );
    assert_eq!(
        Language::try_new("é", None, None),
        Err(LanguageError::InvalidLanguage("é".to_string()))
    );
}

#[test]
fn to_bcp47_round_trips_through_from_bcp47() {
    for tag in ["en", "und", "fr-CA", "sr-Cyrl", "zh-Hans-CN", "pt-076"] {
        let l = Language::from_bcp47(tag).unwrap();
        let again = Language::from_bcp47(&l.to_bcp47()).unwrap();
        assert_eq!(again, l);
        assert_eq!(again.to_bcp47(), tag);
    }
    let built = Language::try_new("sr", Some("Latn"), Some("RS")).unwrap();
    assert_eq!(Language::from_bcp47(&built.to_bcp47()).unwrap(), built);
}

#[test]
fn clone_keeps_subtags() {
    let l = Language::from_bcp47("zh-Hant-TW").unwrap();
    let c = l.clone();
    assert_eq!(c, l);
    assert_eq!(c.script(), Some("Hant"));
}

#[test]
fn from_parsed_bcp47_maps_parser_output() {
    let ok = Language::from_parsed_bcp47(
        "zh-hant",
        Some(("zh".to_string(), Some("Hant".to_string()), None)),
    )
    .unwrap();
    assert_eq!(ok.to_bcp47(), "zh-Hant");
    assert_eq!(
        Language::from_parsed_bcp47("zz-!", None),
        Err(LanguageError::MalformedBcp47("zz-!".to_string()))
    );
}

#[test]
fn try_new_rebuilds_a_tag_from_its_subtags() {
    for tag in ["en", "und", "zh-Hant-TW", "es-419", "sr-Latn"] {
        let l = Language::from_bcp47(tag).unwrap();
        let rebuilt = Language::try_new(l.language(), l.script(), l.region()).unwrap();
        assert_eq!(rebuilt, l);
    }
}
