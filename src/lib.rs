//! Resolution, caching and a uniform encode interface for language-model
//! tokenizers in two on-disk formats: a JSON vocabulary table and a
//! byte-pair-encoding table.
pub mod text;
pub mod cache;
pub mod detect;
pub mod encoding;
pub mod fetch;
pub mod params;
pub mod shared;
pub mod source;
pub mod tiktoken_wrapper;
pub mod tokens;
