//! PRodder: demotes open pull requests that fail their merge requirements.
pub mod text;
pub mod url;
pub mod data;
pub mod json;
pub mod toml_text;
pub mod rules;
pub mod config;
pub mod api;
pub mod http;
pub mod drafter;
pub mod session;
