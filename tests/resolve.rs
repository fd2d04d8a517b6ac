use std::sync::Arc;

use refact_tokens::cache::{plan_resolution, Resolution, TokenizerCache};
use refact_tokens::fetch::{failure_message, AttemptFailure, FetchStep, Fetcher, MAX_ATTEMPTS, RETRY_DELAY_MS};
use refact_tokens::source::{strip_finetune_suffix, cache_target, classify_source, file_url_path, registry_url, sanitize_model_id, TokenizerSource};
use refact_tokens::tiktoken_wrapper::TikTokenWrapper;
use refact_tokens::tokens::UnifiedTokenizer;

const TEMPLATE: &str = "https://huggingface.co/$HF_MODEL/resolve/main/tokenizer.json";

#[test]
fn descriptors_are_classified() {
    assert!(matches!(classify_source(""), TokenizerSource::Empty));
    assert!(matches!(classify_source("fake"), TokenizerSource::Fake));
    assert!(matches!(classify_source("fake-tokenizer"), TokenizerSource::Fake));
    match classify_source("hf://org/model") {
        TokenizerSource::Registry(n) => assert_eq!(n, "org/model"),
        _ => panic!("expected a registry source"),
    }
    assert!(matches!(classify_source("http://h/t.json"), TokenizerSource::Url(u) if u == "http://h/t.json"));
    assert!(matches!(classify_source("https://h/t.json"), TokenizerSource::Url(_)));
    assert!(matches!(classify_source("file:///tmp/t.json"), TokenizerSource::FileUrl(_)));
    assert!(matches!(classify_source("/tmp/t.json"), TokenizerSource::LocalPath(p) if p == "/tmp/t.json"));
}

#[test]
fn urls_and_paths() {
    assert_eq!(registry_url(TEMPLATE, "org/m"), "https://huggingface.co/org/m/resolve/main/tokenizer.json");
    assert_eq!(registry_url("$HF_MODEL-$HF_MODEL", "a"), "a-a");
    assert_eq!(file_url_path("file:///tmp/tok/tokenizer.json"), Ok("/tmp/tok/tokenizer.json".to_string()));
    let e = file_url_path("not a url").unwrap_err();
    assert!(e.starts_with("Invalid path URL not a url: "));
    assert_eq!(sanitize_model_id("gpt-4:ft/x"), "gpt_4_ft_x");
    assert_eq!(sanitize_model_id("m\u{e9}1"), "m\u{e9}1");
    assert_eq!(cache_target("/cache", "gpt-4"), "/cache/tokenizers/gpt_4/tokenizer.json");
    assert_eq!(cache_target("/cache/", "a"), "/cache/tokenizers/a/tokenizer.json");
}

#[test]
fn plans_by_source() {
    let c = TokenizerCache::new();
    match plan_resolution(&c, "m", "", TEMPLATE, "/c") {
        Resolution::Failed(e) => assert_eq!(e, "failed to load tokenizer: empty tokenizer for m"),
        _ => panic!("expected a failure"),
    }
    match plan_resolution(&c, "m-1", "hf://org/m", TEMPLATE, "/c") {
        Resolution::Download { url, target } => {
            assert_eq!(url, "https://huggingface.co/org/m/resolve/main/tokenizer.json");
            assert_eq!(target, "/c/tokenizers/m_1/tokenizer.json");
        }
        _ => panic!("expected a download"),
    }
    match plan_resolution(&c, "m", "https://h/t.json", TEMPLATE, "/c") {
        Resolution::Download { url, .. } => assert_eq!(url, "https://h/t.json"),
        _ => panic!("expected a download"),
    }
    match plan_resolution(&c, "m", "/local/dir", TEMPLATE, "/c") {
        Resolution::Local { path } => assert_eq!(path, "/local/dir"),
        _ => panic!("expected a local path"),
    }
    match plan_resolution(&c, "m", "file:///local/dir", TEMPLATE, "/c") {
        Resolution::Local { path } => assert_eq!(path, "/local/dir"),
        _ => panic!("expected a local path"),
    }
}

#[test]
fn fake_source_is_memoized_as_none() {
    let mut c = TokenizerCache::new();
    assert!(matches!(plan_resolution(&c, "m", "fake", TEMPLATE, "/c"), Resolution::NoTokenizer));
    c.record("m", None);
    for _ in 0..2 {
        assert!(matches!(plan_resolution(&c, "m", "fake", TEMPLATE, "/c"), Resolution::Cached(None)));
    }
    assert!(c.get("other").is_none());
}

#[test]
fn second_resolution_shares_the_instance() {
    let mut c = TokenizerCache::new();
    let bpe = tiktoken_rs::cl100k_base().unwrap();
    let t = Arc::new(UnifiedTokenizer::TikToken(Arc::new(TikTokenWrapper::from_tokenizer(bpe))));
    assert!(matches!(plan_resolution(&c, "m", "hf://x", TEMPLATE, "/c"), Resolution::Download { .. }));
    c.record("m", Some(t.clone()));
    let first = match plan_resolution(&c, "m", "hf://x", TEMPLATE, "/c") {
        Resolution::Cached(Some(a)) => a,
        _ => panic!("expected a memo hit"),
    };
    let second = match plan_resolution(&c, "m", "hf://x", TEMPLATE, "/c") {
        Resolution::Cached(Some(a)) => a,
        _ => panic!("expected a memo hit"),
    };
    assert!(Arc::ptr_eq(&first, &t));
    assert!(Arc::ptr_eq(&first, &second));
    // a later record for the same id changes nothing
    c.record("m", None);
    assert!(matches!(c.get("m"), Some(Some(_))));
}

#[test]
fn valid_target_needs_no_download() {
    let (f, step) = Fetcher::start(true);
    assert!(matches!(step, FetchStep::Done));
    assert_eq!(f.attempts_made, 0);
    let (_, step) = Fetcher::start(false);
    assert!(matches!(step, FetchStep::Attempt { delay_ms: 0 }));
}

#[test]
fn retries_are_exhausted_after_fifteen_attempts() {
    let (mut f, mut step) = Fetcher::start(false);
    let mut attempts = 0;
    let mut delays = 0;
    loop {
        match step {
            FetchStep::Attempt { delay_ms } => {
                if delay_ms > 0 {
                    assert_eq!(delay_ms, RETRY_DELAY_MS);
                    delays += 1;
                }
                attempts += 1;
                let msg = format!("failed to get response: 404 ({attempts})");
                step = f.after_attempt(Err(AttemptFailure::Download(msg)));
            }
            FetchStep::GiveUp(e) => {
                assert_eq!(e, "failed to download tokenizer: failed to get response: 404 (15)");
                break;
            }
            FetchStep::Done => panic!("no attempt succeeds"),
        }
    }
    assert_eq!(attempts, 15);
    assert_eq!(delays, 14);
    assert_eq!(MAX_ATTEMPTS, 15);
}

#[test]
fn success_ends_the_fetch() {
    let (mut f, _) = Fetcher::start(false);
    assert!(matches!(f.after_attempt(Err(AttemptFailure::NotATokenizer)), FetchStep::Attempt { delay_ms: 200 }));
    assert!(matches!(f.after_attempt(Ok(())), FetchStep::Done));
    assert_eq!(f.attempts_made, 2);
}

#[test]
fn failure_messages() {
    assert_eq!(failure_message(&AttemptFailure::Download("x".to_string())), "failed to download tokenizer: x");
    assert_eq!(failure_message(&AttemptFailure::NoParent), "failed to download tokenizer: parent is not set");
    assert_eq!(failure_message(&AttemptFailure::CreateDir("x".to_string())), "failed to create parent dir: x");
    assert_eq!(failure_message(&AttemptFailure::NotATokenizer), "failed to download tokenizer: file is not a tokenizer");
    assert_eq!(failure_message(&AttemptFailure::Copy("x".to_string())), "failed to copy tokenizer file: x");
}

#[test]
fn finetune_suffix_is_stripped() {
    assert_eq!(strip_finetune_suffix("gpt2:my-finetune"), "gpt2");
    assert_eq!(strip_finetune_suffix("gpt2"), "gpt2");
    assert_eq!(strip_finetune_suffix(":x"), "");
    assert_eq!(strip_finetune_suffix("a:b:c"), "a");
}
