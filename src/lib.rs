//! A web-search tool surface: a TTL cache, a shared rate limiter, a retry policy with
//! exponential backoff, an HTML result extractor and the Markdown renderers, with the
//! decisions of each tool call stated as contracts and proved.

pub mod cache;
pub mod config;
pub mod error;
pub mod instant_answer;
pub mod pipeline;
pub mod rate_limiter;
pub mod retry;
pub mod search;
pub mod text;
pub mod web_search;
