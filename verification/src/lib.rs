//! Verified core of a desktop tool that measures how fast language-model
//! endpoints stream tokens: stream parsing, request framing, storage layout,
//! history retention and the decisions of a test run.
pub mod exchange;
pub mod json;
pub mod model;
pub mod reading;
pub mod request;
pub mod run;
pub mod storage;
pub mod stream;
pub mod text;
pub mod tray;
