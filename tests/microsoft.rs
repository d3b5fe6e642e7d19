use async_translate::microsoft::{batch_texts, first_translation, query_params};
use async_translate::{
    Admission, AuthReply, MicrosoftConfig, MicrosoftTranslator, TranslationError,
    TranslationResult,
};

#[test]
fn test_microsoft_config_default() {
    let config = MicrosoftConfig::default();
    assert_eq!(config.endpoint, None);
    assert_eq!(config.api_key, None);
    assert_eq!(config.concurrent_limit, 10);
}

#[test]
fn test_microsoft_translator_creation() {
    let config = MicrosoftConfig {
        endpoint: None,
        api_key: None,
        concurrent_limit: 10,
    };

    let _translator = MicrosoftTranslator::new(config);
    assert!(true);
}

fn item(texts: &[&str]) -> Vec<TranslationResult> {
    texts
        .iter()
        .map(|t| TranslationResult { text: t.to_string(), to: "zh".to_string() })
        .collect()
}

#[test]
fn microsoft_builder_keeps_settings() {
    let config = MicrosoftConfig::builder()
        .endpoint("http://localhost:9000")
        .api_key(Some("k".to_string()))
        .concurrent_limit(3)
        .build();
    assert_eq!(config.endpoint.as_deref(), Some("http://localhost:9000"));
    assert_eq!(config.api_key.as_deref(), Some("k"));
    assert_eq!(config.concurrent_limit, 3);
    let plain = MicrosoftConfig::builder().api_key(None).build();
    assert_eq!(plain.endpoint, None);
    assert_eq!(plain.api_key, None);
    assert_eq!(plain.concurrent_limit, 10);
}

#[test]
fn urls_and_headers() {
    let fetched = MicrosoftTranslator::new(MicrosoftConfig::default());
    assert_eq!(
        fetched.translate_url(),
        "https://api-edge.cognitive.microsofttranslator.com/translate"
    );
    assert_eq!(fetched.auth_header("tok"), "Bearer tok");
    let keyed = MicrosoftTranslator::new(
        MicrosoftConfig::builder()
            .endpoint("http://h")
            .api_key(Some("k".to_string()))
            .build(),
    );
    assert_eq!(keyed.endpoint(), "http://h");
    assert_eq!(keyed.translate_url(), "http://h/translate");
    assert_eq!(keyed.auth_header("k"), "Ocp-Apim-Subscription-Key k");
    assert_eq!(keyed.cached_token(0), Some("k".to_string()));
}

#[test]
fn query_with_and_without_source() {
    let q = query_params("zh-CN", None);
    assert_eq!(
        q,
        vec![
            ("api-version".to_string(), "3.0".to_string()),
            ("to".to_string(), "zh-CN".to_string()),
            ("includeSentenceLength".to_string(), "true".to_string()),
        ]
    );
    let q = query_params("zh-CN", Some("en"));
    assert_eq!(q.len(), 4);
    assert_eq!(q[3], ("from".to_string(), "en".to_string()));
}

#[test]
fn unauthorized_answer_drops_token() {
    let mut t = MicrosoftTranslator::new(MicrosoftConfig::default());
    t.on_auth_reply(1, AuthReply::Answered { status: 200, body: Ok("tok".to_string()) }, 0);
    assert_eq!(t.cached_token(1), Some("tok".to_string()));
    let r = t.check_response(401, "{}".to_string(), Some((401000, "bad token".to_string())));
    assert_eq!(
        r,
        Err(TranslationError::AuthenticationError("Error 401000: bad token".to_string()))
    );
    assert_eq!(t.cached_token(1), None);
}

#[test]
fn other_answers() {
    let mut t = MicrosoftTranslator::new(MicrosoftConfig::default());
    t.on_auth_reply(1, AuthReply::Answered { status: 200, body: Ok("tok".to_string()) }, 0);
    assert_eq!(t.check_response(200, "[]".to_string(), None), Ok("[]".to_string()));
    assert_eq!(
        t.check_response(500, "oops".to_string(), None),
        Err(TranslationError::HttpError { status: 500, body: "oops".to_string() })
    );
    t.clear_cached_token();
    assert_eq!(t.cached_token(1), None);
}

#[test]
fn single_text_needs_a_translation() {
    assert_eq!(first_translation(vec![item(&["你好", "x"])]), Ok("你好".to_string()));
    let none = Err(TranslationError::ServiceError("No translation results returned".to_string()));
    assert_eq!(first_translation(vec![]), none);
    assert_eq!(first_translation(vec![item(&[])]), none);
}

#[test]
fn batch_takes_first_translation_of_each() {
    let results = vec![item(&["a", "a2"]), item(&[]), item(&["c"])];
    assert_eq!(batch_texts(&results), vec!["a".to_string(), "c".to_string()]);
}

#[test]
fn microsoft_governor_bounds_requests() {
    let mut t = MicrosoftTranslator::new(MicrosoftConfig::builder().concurrent_limit(1).build());
    assert_eq!(t.request_admission(0), Admission::Granted);
    assert_eq!(t.request_admission(0), Admission::Busy);
    t.release();
    assert_eq!(t.request_admission(0), Admission::Granted);
}
