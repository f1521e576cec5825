//! What becomes of one file: what a response's status and headers call for,
//! and what its payload yields.

use crate::github::backoff::{read_signal, signal_of};
use crate::github::decoder::{decode, decoded_text, DecodeFailure};
use crate::github::types::{FetchSkip, FetchedFile, FetchedFileView, FileContent, FileContentView};
use crate::number::{exceeds, unsigned_value};
use crate::text::same_text;
use vstd::prelude::*;

verus! {

/// The largest declared size, in bytes, of a body that is still read.
pub const SIZE_LIMIT: u32 = 1_000_000;

/// What to do with a response, going by its status and headers.
#[derive(Debug, Clone, Copy, PartialEq, Eq, Structural)]
pub enum HeadVerdict {
    /// Wait, then send the same request again.
    BackOff,
    /// Leave the file out, without reading the body.
    Skip(FetchSkip),
    /// Read the body.
    ReadBody,
}

/// A status from 200 to 299.
pub open spec fn is_success(status: u16) -> bool {
    200 <= status < 300
}

/// The status by which the service refuses or throttles a request.
pub open spec fn is_throttling(status: u16) -> bool {
    status == 403
}

/// A header declares a size over the limit.
pub open spec fn declared_too_large(length: Option<Seq<char>>) -> bool {
    length matches Some(text) && unsigned_value(text) matches Some(size) && size > SIZE_LIMIT
}

/// What a response's status and headers call for. A throttling response
/// calls for a pause where the service says that no call is left, and is
/// a refusal otherwise; after that the declared size counts, then the
/// status.
pub open spec fn head_verdict(
    status: u16,
    remaining: Option<Seq<char>>,
    length: Option<Seq<char>>,
) -> HeadVerdict {
    if is_throttling(status) {
        if signal_of(remaining).exhausted() {
            HeadVerdict::BackOff
        } else {
            HeadVerdict::Skip(FetchSkip::Forbidden)
        }
    } else if declared_too_large(length) {
        HeadVerdict::Skip(FetchSkip::TooLarge)
    } else if !is_success(status) {
        HeadVerdict::Skip(FetchSkip::TransientError)
    } else {
        HeadVerdict::ReadBody
    }
}

/// What the payload of a response yields for the file at `path`, where
/// `payload` is `None` if the body was not a payload at all.
pub open spec fn payload_verdict(path: Seq<char>, payload: Option<FileContentView>) -> Result<
    FetchedFileView,
    FetchSkip,
> {
    match payload {
        None => Err(FetchSkip::DecodeFailed),
        Some(file) => if file.encoding != "base64"@ {
            Err(FetchSkip::DecodeFailed)
        } else {
            match decoded_text(file.content) {
                Ok(text) => Ok(FetchedFileView { path, content: text }),
                Err(DecodeFailure::Malformed) => Err(FetchSkip::DecodeFailed),
                Err(DecodeFailure::NotText) => Err(FetchSkip::Binary),
            }
        },
    }
}

/// The view of what became of a file.
pub open spec fn verdict_view(verdict: Result<FetchedFile, FetchSkip>) -> Result<
    FetchedFileView,
    FetchSkip,
> {
    match verdict {
        Ok(file) => Ok(file@),
        Err(reason) => Err(reason),
    }
}

/// Whether `status` is from 200 to 299.
pub fn status_is_success(status: u16) -> (success: bool)
    ensures
        success == is_success(status),
{
    200 <= status && status < 300
}

/// Decides by status and headers what to do with a response. The body is
/// read only on `ReadBody`.
pub fn judge_head(status: u16, remaining: &Option<String>, length: &Option<String>) -> (verdict:
    HeadVerdict)
    ensures
        verdict == head_verdict(status, remaining.deep_view(), length.deep_view()),
{
    if status == 403 {
        if read_signal(remaining).is_exhausted() {
            HeadVerdict::BackOff
        } else {
            HeadVerdict::Skip(FetchSkip::Forbidden)
        }
    } else {
        let too_large = match length {
            Some(text) => exceeds(text.as_str(), SIZE_LIMIT),
            None => false,
        };
        if too_large {
            HeadVerdict::Skip(FetchSkip::TooLarge)
        } else if !status_is_success(status) {
            HeadVerdict::Skip(FetchSkip::TransientError)
        } else {
            HeadVerdict::ReadBody
        }
    }
}

/// Decides what the payload of a response yields for the file at `path`.
pub fn judge_payload(path: &str, payload: Option<FileContent>) -> (verdict: Result<
    FetchedFile,
    FetchSkip,
>)
    ensures
        verdict_view(verdict) == payload_verdict(path@, payload.deep_view()),
{
    match payload {
        None => Err(FetchSkip::DecodeFailed),
        Some(file) => {
            if !same_text(file.encoding.as_str(), "base64") {
                Err(FetchSkip::DecodeFailed)
            } else {
                match decode(file.content.as_str()) {
                    Ok(text) => Ok(FetchedFile { path: String::from_str(path), content: text }),
                    Err(DecodeFailure::Malformed) => Err(FetchSkip::DecodeFailed),
                    Err(DecodeFailure::NotText) => Err(FetchSkip::Binary),
                }
            }
        },
    }
}

} // verus!
