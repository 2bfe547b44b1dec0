//! A small calendar service: fixed-text endpoints, an echo endpoint, and a
//! listing of calendar documents rendered as JSON.

pub mod document;
pub mod json;
pub mod http;
