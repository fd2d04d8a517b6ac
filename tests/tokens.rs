use std::str::FromStr;
use std::sync::Arc;

use refact_tokens::detect::{
    detect_format, is_tiktoken_format, json_candidate, no_format_message, JsonCandidate, PathKind,
    TokenizerFormat,
};
use refact_tokens::encoding::encoding_from_tokens;
use refact_tokens::params::TruncationParams;
use refact_tokens::tiktoken_wrapper::{
    select_table, token_string, truncate_ids, BpeTable, TikTokenConfig, TikTokenWrapper,
};
use refact_tokens::tokens::{
    count_from_encoding, count_or_estimate, count_text_tokens, count_text_tokens_with_fallback,
    estimate_tokens, HfTokenizer, UnifiedTokenizer,
};

fn cl100k() -> UnifiedTokenizer {
    let bpe = tiktoken_rs::cl100k_base().unwrap();
    UnifiedTokenizer::TikToken(Arc::new(TikTokenWrapper::from_tokenizer(bpe)))
}

fn word_level() -> UnifiedTokenizer {
    let json = r#"{"version":"1.0","truncation":null,"padding":null,"added_tokens":[],
        "normalizer":null,"pre_tokenizer":{"type":"Whitespace"},"post_processor":null,
        "decoder":null,"model":{"type":"WordLevel","vocab":{"hello":0,"world":1,"[UNK]":2},
        "unk_token":"[UNK]"}}"#;
    let t = tokenizers::Tokenizer::from_str(json).unwrap();
    UnifiedTokenizer::HuggingFace(Arc::new(HfTokenizer::new(t)))
}

#[test]
fn test_detect_and_load_tokenizer_fallback() {
    let non_existent_path = "/non/existent/path";
    let result = detect_format(PathKind::Missing, None, false, false);
    assert!(result == TokenizerFormat::Unrecognized);
    assert!(no_format_message(non_existent_path).contains("No valid tokenizer format found"));
}

#[test]
fn test_tiktoken_detection() {
    // a directory holding tiktoken.model
    assert!(is_tiktoken_format(PathKind::Dir, true, None));
    // the file tiktoken.model itself
    assert!(is_tiktoken_format(PathKind::File, false, Some("model")));
    // tokenizer.json is not the byte-pair format
    assert!(!is_tiktoken_format(PathKind::File, false, Some("json")));
}

#[test]
fn test_unified_tokenizer_encoding() {
    let unified = cl100k();
    let test_text = "Hello, world!";
    let result = unified.encode_fast(test_text, false);
    assert!(result.is_ok());
    let encoding = result.unwrap();
    assert!(!encoding.get_ids().is_empty());
}

#[test]
fn format_detection_cases() {
    assert_eq!(detect_format(PathKind::Dir, None, true, false), TokenizerFormat::VocabularyJson);
    assert_eq!(detect_format(PathKind::Dir, None, false, true), TokenizerFormat::BytePair);
    assert_eq!(detect_format(PathKind::Dir, None, false, false), TokenizerFormat::Unrecognized);
    assert_eq!(detect_format(PathKind::File, Some("model"), false, false), TokenizerFormat::BytePair);
    assert_eq!(detect_format(PathKind::File, Some("model"), true, false), TokenizerFormat::VocabularyJson);
    assert_eq!(detect_format(PathKind::File, Some("bin"), false, false), TokenizerFormat::Unrecognized);
    assert_eq!(json_candidate(PathKind::Dir, None), JsonCandidate::InsideDir);
    assert_eq!(json_candidate(PathKind::File, Some("json")), JsonCandidate::ThePath);
    assert_eq!(json_candidate(PathKind::File, Some("model")), JsonCandidate::BesideFile);
    assert_eq!(json_candidate(PathKind::Missing, None), JsonCandidate::BesideFile);
    assert_eq!(no_format_message("/x"), "No valid tokenizer format found at /x");
}

#[test]
fn estimate_values() {
    assert_eq!(count_text_tokens_with_fallback(None, "hello"), 2);
    assert_eq!(estimate_tokens(""), 1);
    assert_eq!(estimate_tokens("abcdefg"), 3);
    assert_eq!(estimate_tokens("abc"), 1);
    assert_eq!(estimate_tokens("abcd"), 2);
    // two bytes for one char
    assert_eq!(estimate_tokens("\u{e9}\u{e9}\u{e9}\u{e9}"), 3);
    assert_eq!(count_text_tokens(None, "hello"), Ok(2));
}

#[test]
fn count_with_tokenizer() {
    let t = cl100k();
    let n = count_text_tokens(Some(t.clone()), "Hello, world!").unwrap();
    assert_eq!(n, 4);
    assert_eq!(count_text_tokens_with_fallback(Some(t), "Hello, world!"), 4);
    assert_eq!(count_from_encoding(Err("bad".to_string())), Err("Encoding error: bad".to_string()));
    assert_eq!(count_or_estimate(Err("bad".to_string()), "hello"), 2);
    assert_eq!(count_or_estimate(Ok(9), "hello"), 9);
}

#[test]
fn encoding_offsets_accumulate() {
    let e = encoding_from_tokens(vec![7, 8, 9], vec!["ab".to_string(), "\u{e9}".to_string(), "c".to_string()])
        .unwrap();
    assert_eq!(e.get_ids(), &[7, 8, 9]);
    assert_eq!(e.get_offsets(), &[(0, 2), (2, 4), (4, 5)]);
    assert_eq!(e.type_ids, vec![0, 0, 0]);
    assert_eq!(e.word_ids, vec![Some(0), Some(1), Some(2)]);
    assert_eq!(e.special_tokens_mask, vec![0, 0, 0]);
    assert_eq!(e.attention_mask, vec![1, 1, 1]);
    assert_eq!(e.len(), 3);
    let empty = encoding_from_tokens(vec![], vec![]).unwrap();
    assert!(empty.is_empty());
}

#[test]
fn truncation_and_placeholders() {
    assert_eq!(truncate_ids(vec![1, 2, 3], Some(TruncationParams::new(2))), vec![1, 2]);
    assert_eq!(truncate_ids(vec![1, 2, 3], Some(TruncationParams::new(5))), vec![1, 2, 3]);
    assert_eq!(truncate_ids(vec![1, 2, 3], None), vec![1, 2, 3]);
    assert_eq!(token_string(4021, None), "token_4021");
    assert_eq!(token_string(0, None), "token_0");
    assert_eq!(token_string(5, Some("x".to_string())), "x");
}

#[test]
fn table_selection() {
    let mut config = TikTokenConfig::new();
    assert_eq!(select_table(&config, "tiktoken.model"), BpeTable::Cl100kBase);
    assert_eq!(select_table(&config, "r50k.model"), BpeTable::R50kBase);
    assert_eq!(select_table(&config, "gpt2.model"), BpeTable::R50kBase);
    assert_eq!(select_table(&config, "p50k.model"), BpeTable::P50kBase);
    assert_eq!(select_table(&config, "gpt-4o.model"), BpeTable::O200kBase);
    assert_eq!(select_table(&config, "o200k.model"), BpeTable::O200kBase);
    config.pat_str = Some("o200k pattern".to_string());
    assert_eq!(select_table(&config, "r50k.model"), BpeTable::O200kBase);
    config.pat_str = Some("other".to_string());
    assert_eq!(select_table(&config, "r50k.model"), BpeTable::R50kBase);
}

#[test]
fn loaders_report_missing_files() {
    let e = TikTokenWrapper::from_directory("/d", false, TikTokenConfig::new()).err().unwrap();
    assert_eq!(e, "tiktoken.model not found in /d");
    let e = TikTokenWrapper::from_model_file("/d/x.model", "x.model", false, TikTokenConfig::new())
        .err()
        .unwrap();
    assert_eq!(e, "Model file not found: /d/x.model");
    let w = TikTokenWrapper::from_directory("/d", true, TikTokenConfig::new()).unwrap();
    assert_eq!(w.table(), Some(BpeTable::Cl100kBase));
}

#[test]
fn r50k_model_file_end_to_end() {
    let w = TikTokenWrapper::from_model_file("/m/r50k-hint.model", "r50k-hint.model", true, TikTokenConfig::new())
        .unwrap();
    assert_eq!(w.table(), Some(BpeTable::R50kBase));
    let u = UnifiedTokenizer::TikToken(Arc::new(w));
    let a = u.encode_fast("Hello, world!", false).unwrap();
    let b = u.encode_fast("Hello, world!", true).unwrap();
    assert!(!a.get_ids().is_empty());
    assert_eq!(a.get_ids(), b.get_ids());
    let joined: String = a.get_tokens().concat();
    assert_eq!(joined, "Hello, world!");
    let last = a.get_offsets()[a.len() - 1];
    assert_eq!(last.1, "Hello, world!".len());
}

#[test]
fn truncation_copies_engine() {
    let shared = cl100k();
    let other = shared.clone();
    let before = other.encode_fast("Hello, world!", false).unwrap().len();
    let truncated = shared.with_truncation(Some(TruncationParams::new(1)));
    assert_eq!(truncated.encode_fast("Hello, world!", false).unwrap().len(), 1);
    assert_eq!(other.encode_fast("Hello, world!", false).unwrap().len(), before);
    assert!(before > 1);
    let padded = other.clone().with_padding(None);
    assert_eq!(padded.encode_fast("Hello, world!", false).unwrap().len(), before);
}

#[test]
fn vocabulary_tokenizer_encoding() {
    let t = word_level();
    let e = t.encode_fast("hello world", false).unwrap();
    assert_eq!(e.get_ids(), &[0, 1]);
    let short = t.clone().with_truncation(Some(TruncationParams::new(1)));
    assert_eq!(short.encode_fast("hello world", false).unwrap().get_ids(), &[0]);
    assert_eq!(t.encode_fast("hello world", false).unwrap().len(), 2);
    assert_eq!(count_text_tokens(Some(t), "hello world hello"), Ok(3));
}

#[test]
fn vocabulary_settings_are_recorded() {
    let json = r#"{"version":"1.0","truncation":null,"padding":null,"added_tokens":[],
        "normalizer":null,"pre_tokenizer":{"type":"Whitespace"},"post_processor":null,
        "decoder":null,"model":{"type":"WordLevel","vocab":{"hello":0,"world":1,"[UNK]":2},
        "unk_token":"[UNK]"}}"#;
    let base = HfTokenizer::new(tokenizers::Tokenizer::from_str(json).unwrap());
    assert_eq!(base.get_truncation(), None);
    let t = base.with_truncation(Some(TruncationParams::new(3)));
    assert_eq!(t.get_truncation(), Some(TruncationParams::new(3)));
    assert_eq!(base.get_truncation(), None);
    // a stride above the maximum length is rejected and the setting stays
    let mut bad = TruncationParams::new(2);
    bad.stride = 5;
    assert_eq!(t.with_truncation(Some(bad)).get_truncation(), Some(TruncationParams::new(3)));
    assert_eq!(t.with_truncation(None).get_truncation(), None);
    assert!(t.with_padding(None).get_padding().is_none());
}

#[test]
fn table_encoding_ignores_add_special() {
    let w = TikTokenWrapper::from_directory("/d", true, TikTokenConfig::new()).unwrap();
    let a = w.encode_fast("<|endoftext|> hi", false).unwrap();
    let b = w.encode_fast("<|endoftext|> hi", true).unwrap();
    assert_eq!(a.get_ids(), b.get_ids());
    assert!(a.len() > 2);
}
