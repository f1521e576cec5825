//! Fetching the text files of a hosted repository and writing them out as one
//! document: the path filter, the decoding of file payloads, the rate-limit
//! policy and the run that sequences them, each with its contract.
//!
//! The library does no input or output. Its two dialogues with the outside,
//! the run in `github::client` and the menu in `ui::menu`, are told what
//! happened and say what to do next.

pub mod config;
pub mod export;
pub mod github;
pub mod input;
pub mod number;
pub mod text;
pub mod ui;
pub mod utils;
