use lingua_gate::error::AppError;
use lingua_gate::lang::{
    allow_list, detect_language_code, language_detect, parse_language_code, primary_subtag_of,
    resolve_source, resolve_target, LanguagePair,
};

fn pair(a: &str, b: &str) -> LanguagePair {
    LanguagePair { source: a.to_string(), target: b.to_string() }
}

const ENGLISH: &str = "The quick brown fox jumps over the lazy dog while the farmer watches from the old wooden porch";

#[test]
fn primary_subtag_drops_region() {
    assert_eq!(primary_subtag_of("en-US"), "en");
    assert_eq!(primary_subtag_of("de"), "de");
    assert_eq!(primary_subtag_of(""), "");
    assert_eq!(primary_subtag_of("-x"), "");
}

#[test]
fn parse_accepts_known_codes() {
    assert_eq!(parse_language_code("en").ok(), Some("en".to_string()));
    assert_eq!(parse_language_code("en-US").ok(), Some("en".to_string()));
    assert_eq!(resolve_target("zh").ok(), Some("zh".to_string()));
}

#[test]
fn parse_rejects_unknown_codes() {
    match parse_language_code("xx") {
        Err(AppError::InvalidLanguageCode { code }) => assert_eq!(code, "xx"),
        _ => panic!("expected an invalid code"),
    }
    match resolve_target("english") {
        Err(AppError::InvalidLanguageCode { code }) => assert_eq!(code, "english"),
        _ => panic!("expected an invalid code"),
    }
    assert!(parse_language_code("EN").is_err());
}

#[test]
fn allow_list_holds_each_model_language_once() {
    let models = vec![pair("en", "de"), pair("de", "en"), pair("en", "fr")];
    assert_eq!(allow_list(&models), vec!["eng".to_string(), "deu".to_string(), "fra".to_string()]);
    assert!(allow_list(&Vec::new()).is_empty());
}

#[test]
fn allow_list_skips_languages_the_detector_lacks() {
    // ISO 639-1 `zh` is the macrolanguage `zho`; the detector names Mandarin `cmn`.
    let models = vec![pair("en", "zh")];
    assert_eq!(allow_list(&models), vec!["eng".to_string()]);
}

#[test]
fn detection_picks_allowed_language() {
    let models = vec![pair("en", "de")];
    assert_eq!(language_detect(ENGLISH, &models).ok(), Some("en".to_string()));
    assert_eq!(resolve_source(&None, ENGLISH, &models).ok(), Some("en".to_string()));
    let auto = Some("auto".to_string());
    assert_eq!(resolve_source(&auto, ENGLISH, &models).ok(), Some("en".to_string()));
    let empty = Some(String::new());
    assert_eq!(resolve_source(&empty, ENGLISH, &models).ok(), Some("en".to_string()));
}

#[test]
fn detection_fails_on_empty_text() {
    let models = vec![pair("en", "de")];
    assert!(matches!(resolve_source(&None, "", &models), Err(AppError::DetectionFailed)));
}

#[test]
fn detection_outside_models_fails() {
    let models = vec![pair("en", "de")];
    match resolve_source(&None, "Καλημέρα σας, πώς είστε σήμερα; Ελπίζω να είστε καλά.", &models) {
        Err(AppError::DetectedOutsideModels { code }) => assert_eq!(code, "ell"),
        other => panic!("unexpected: {:?}", other.ok()),
    }
}

#[test]
fn detection_gives_the_model_code() {
    let models = vec![pair("de", "en")];
    assert_eq!(language_detect(ENGLISH, &models).ok(), Some("en".to_string()));
    assert!(matches!(language_detect(ENGLISH, &Vec::new()), Err(AppError::DetectionFailed) | Err(AppError::DetectedOutsideModels { .. })));
}

#[test]
fn explicit_source_skips_detection() {
    let models = vec![pair("en", "de")];
    let fr = Some("fr".to_string());
    assert_eq!(resolve_source(&fr, ENGLISH, &models).ok(), Some("fr".to_string()));
    let bad = Some("zz".to_string());
    assert!(matches!(
        resolve_source(&bad, ENGLISH, &models),
        Err(AppError::InvalidLanguageCode { .. })
    ));
}

#[test]
fn open_detection_gives_two_letter_code() {
    assert_eq!(detect_language_code(ENGLISH).ok(), Some("en".to_string()));
    assert!(matches!(detect_language_code(""), Err(AppError::DetectionFailed)));
}
