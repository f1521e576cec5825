//! Writing out what a run has fetched.

pub mod markdown;
