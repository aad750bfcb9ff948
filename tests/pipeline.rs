use lingua_gate::adapters::{
    collect_batch, convert_language_name, get_language_name, hcfy_target, DeeplxTranslationRequest,
    DeeplxTranslationResponse, HcfyTranslationRequest, HcfyTranslationResponse,
    ImmersiveTranslationRequest, KissTranslationRequest, TranslationRequest, TranslationResponse,
};
use lingua_gate::error::{AppError, ErrorClass};
use lingua_gate::lang::LanguagePair;
use lingua_gate::orchestrator::{
    begin_translation, CanonicalRequest, CanonicalResult, EngineCall, EngineReply, JobAction, Phase,
};

/// An engine double: it holds `pairs` and translates by tagging the text.
struct Stub {
    pairs: Vec<(String, String)>,
    translations: usize,
}

impl Stub {
    fn new(pairs: &[(&str, &str)]) -> Stub {
        Stub {
            pairs: pairs.iter().map(|(a, b)| (a.to_string(), b.to_string())).collect(),
            translations: 0,
        }
    }

    fn models(&self) -> Vec<LanguagePair> {
        self.pairs
            .iter()
            .map(|(a, b)| LanguagePair { source: a.clone(), target: b.clone() })
            .collect()
    }

    fn answer(&mut self, call: &EngineCall) -> EngineReply {
        match call {
            EngineCall::IsSupported { from, to } => {
                EngineReply::Supported(self.pairs.iter().any(|(a, b)| a == from && b == to))
            }
            EngineCall::Translate { from, to, text } => {
                self.translations += 1;
                EngineReply::Translated(format!("[{}>{}] {}", from, to, text))
            }
        }
    }

    fn run(&mut self, req: &CanonicalRequest) -> Result<CanonicalResult, AppError> {
        let models = self.models();
        let (mut job, mut action) = begin_translation(req, &models);
        loop {
            match action {
                JobAction::Finish(outcome) => return outcome,
                JobAction::Call(call) => {
                    let reply = self.answer(&call);
                    action = job.advance(reply);
                }
            }
        }
    }
}

fn request(text: &str, from: Option<&str>, to: &str) -> CanonicalRequest {
    CanonicalRequest { text: text.to_string(), from: from.map(|s| s.to_string()), to: to.to_string() }
}

#[test]
fn supported_pair_is_translated() {
    let mut stub = Stub::new(&[("en", "de")]);
    let r = stub.run(&request("hello", Some("en"), "de")).ok().unwrap();
    assert_eq!(r.text, "[en>de] hello");
    assert_eq!(r.from, "en");
    assert_eq!(r.to, "de");
}

#[test]
fn unsupported_pair_never_translates() {
    let mut stub = Stub::new(&[("en", "de")]);
    match stub.run(&request("hello", Some("de"), "en")) {
        Err(AppError::UnsupportedPair { from, to }) => {
            assert_eq!(from, "de");
            assert_eq!(to, "en");
        }
        _ => panic!("expected an unsupported pair"),
    }
    assert_eq!(stub.translations, 0);
}

#[test]
fn bad_target_fails_before_the_engine() {
    let mut stub = Stub::new(&[("en", "de")]);
    let (job, action) = begin_translation(&request("hello", Some("en"), "qq"), &stub.models());
    assert_eq!(job.phase, Phase::Finished);
    assert!(matches!(action, JobAction::Finish(Err(AppError::InvalidLanguageCode { .. }))));
    assert_eq!(stub.translations, 0);
}

#[test]
fn repeated_requests_give_identical_results() {
    let mut stub = Stub::new(&[("en", "de")]);
    let a = stub.run(&request("same text", Some("en"), "de")).ok().unwrap();
    let b = stub.run(&request("same text", Some("en"), "de")).ok().unwrap();
    assert_eq!((a.text, a.from, a.to), (b.text, b.from, b.to));
}

#[test]
fn engine_failure_is_an_engine_error() {
    let stub = Stub::new(&[("en", "de")]);
    let (mut job, _) = begin_translation(&request("hello", Some("en"), "de"), &stub.models());
    let next = job.advance(EngineReply::Supported(true));
    assert!(matches!(next, JobAction::Call(EngineCall::Translate { .. })));
    match job.advance(EngineReply::Failed("null pointer returned".to_string())) {
        JobAction::Finish(Err(e)) => {
            assert_eq!(e.class(), ErrorClass::Engine);
            assert_eq!(e.status_code(), 500);
            assert_eq!(e.message(), "Translation failed: null pointer returned");
        }
        _ => panic!("expected an engine error"),
    }
}

#[test]
fn error_statuses_and_messages() {
    let e = AppError::UnsupportedPair { from: "de".into(), to: "en".into() };
    assert_eq!(e.status_code(), 400);
    assert_eq!(e.message(), "Language pair 'de' -> 'en' is not supported");
    assert_eq!(AppError::Unauthorized.status_code(), 401);
    assert_eq!(AppError::Unauthorized.message(), "Invalid or missing API key");
    assert_eq!(AppError::MissingModelFiles { pair: "enzh".into() }.status_code(), 500);
    assert_eq!(AppError::EmptyText.status_code(), 400);
}

#[test]
fn generic_and_simple_pass_through() {
    let mut stub = Stub::new(&[("en", "de")]);
    let req = TranslationRequest { text: "hi".into(), from: Some("en".into()), to: "de".into() };
    let canon = req.to_canonical().ok().unwrap();
    let resp = TranslationResponse::from_canonical(&stub.run(&canon).ok().unwrap());
    assert_eq!((resp.text.as_str(), resp.from.as_str(), resp.to.as_str()), ("[en>de] hi", "en", "de"));
    let kiss = KissTranslationRequest { text: String::new(), from: None, to: "de".into() };
    assert!(matches!(kiss.to_canonical(), Err(AppError::EmptyText)));
}

#[test]
fn batch_keeps_order() {
    let mut stub = Stub::new(&[("en", "de")]);
    let req = ImmersiveTranslationRequest {
        source_lang: Some("en".into()),
        target_lang: "de".into(),
        text_list: vec!["a".into(), "b".into()],
    };
    let outcomes: Vec<_> = req.to_canonical().ok().unwrap().iter().map(|c| stub.run(c)).collect();
    let resp = collect_batch(&outcomes).ok().unwrap();
    assert_eq!(resp.translations.len(), 2);
    assert_eq!(resp.translations[0].text, "[en>de] a");
    assert_eq!(resp.translations[1].text, "[en>de] b");
    assert_eq!(resp.translations[1].detected_source_lang, "en");
}

#[test]
fn batch_with_unsupported_item_fails_whole() {
    let mut stub = Stub::new(&[("en", "de")]);
    let items = vec![request("a", Some("en"), "de"), request("b", Some("fr"), "de")];
    let outcomes: Vec<_> = items.iter().map(|c| stub.run(c)).collect();
    match collect_batch(&outcomes) {
        Err(AppError::UnsupportedPair { from, .. }) => assert_eq!(from, "fr"),
        _ => panic!("expected the whole batch to fail"),
    }
    let empty = ImmersiveTranslationRequest {
        source_lang: None,
        target_lang: "de".into(),
        text_list: vec!["a".into(), String::new()],
    };
    assert!(matches!(empty.to_canonical(), Err(AppError::EmptyText)));
}

#[test]
fn dictionary_names_map_to_codes() {
    assert_eq!(convert_language_name("中文(简体)"), "zh");
    assert_eq!(convert_language_name("英语"), "en");
    assert_eq!(convert_language_name("日语"), "jp");
    assert_eq!(convert_language_name("fr"), "fr");
    assert_eq!(get_language_name("zh"), "中文(简体)");
    assert_eq!(get_language_name("en"), "英语");
    assert_eq!(get_language_name("de"), "de");
}

#[test]
fn dictionary_target_defaults_to_english() {
    assert_eq!(hcfy_target(&vec![], &"zh".to_string()), "en");
    assert_eq!(hcfy_target(&vec!["英语".to_string()], &"zh".to_string()), "en");
}

#[test]
fn dictionary_target_skips_the_source() {
    let dest = vec!["中文(简体)".to_string(), "英语".to_string()];
    assert_eq!(hcfy_target(&dest, &"zh".to_string()), "en");
    assert_eq!(hcfy_target(&dest, &"en".to_string()), "zh");
    let mut stub = Stub::new(&[("zh", "en")]);
    let req = HcfyTranslationRequest {
        text: "你好".into(),
        source: Some("中文(简体)".into()),
        destination: dest,
    };
    let canon = req.to_canonical(&stub.models()).ok().unwrap();
    assert_eq!(canon.from.as_deref(), Some("zh"));
    assert_eq!(canon.to, "en");
    let res = stub.run(&canon).ok().unwrap();
    let resp = HcfyTranslationResponse::from_canonical(&canon, &res);
    assert_eq!(resp.text, "你好");
    assert_eq!(resp.from, "中文(简体)");
    assert_eq!(resp.to, "英语");
    assert_eq!(resp.result, vec!["[zh>en] 你好".to_string()]);
}

#[test]
fn dictionary_target_skips_a_detected_source() {
    let stub = Stub::new(&[("en", "de"), ("de", "en")]);
    let req = HcfyTranslationRequest {
        text: "The quick brown fox jumps over the lazy dog while the farmer watches from the porch"
            .into(),
        source: None,
        destination: vec!["英语".to_string(), "de".to_string()],
    };
    let canon = req.to_canonical(&stub.models()).ok().unwrap();
    assert_eq!(canon.from.as_deref(), Some("en"));
    assert_eq!(canon.to, "de");
}

#[test]
fn dictionary_request_fails_where_the_source_does_not_resolve() {
    let stub = Stub::new(&[("en", "de")]);
    let req = HcfyTranslationRequest {
        text: "hello".into(),
        source: Some("klingon".into()),
        destination: vec!["英语".to_string()],
    };
    assert!(matches!(
        req.to_canonical(&stub.models()),
        Err(AppError::InvalidLanguageCode { .. })
    ));
    let empty = HcfyTranslationRequest { text: String::new(), source: None, destination: vec![] };
    assert!(matches!(empty.to_canonical(&stub.models()), Err(AppError::EmptyText)));
}

#[test]
fn numeric_code_adapter_changes_case() {
    let req = DeeplxTranslationRequest {
        text: "hello".into(),
        source_lang: "en".into(),
        target_lang: "ZH".into(),
    };
    let canon = req.to_canonical().ok().unwrap();
    assert_eq!(canon.from.as_deref(), Some("en"));
    assert_eq!(canon.to, "zh");
    let mut stub = Stub::new(&[("en", "zh")]);
    let res = stub.run(&canon).ok().unwrap();
    let resp = DeeplxTranslationResponse::from_canonical(&res, 1700000000000);
    assert_eq!(resp.source_lang, "EN");
    assert_eq!(resp.target_lang, "ZH");
    assert_eq!(resp.code, 200);
    assert!(resp.alternatives.is_empty());
    assert_eq!(resp.id, 1700000000000);
    assert_eq!(resp.data, "[en>zh] hello");
    assert_eq!(resp.method, "Free");
}
