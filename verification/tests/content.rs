use base64::engine::general_purpose::STANDARD;
use base64::Engine;
use repo_exporter::github::backoff::{read_signal, RateLimitSignal, BACKOFF_MILLIS, PACING_MILLIS};
use repo_exporter::github::content::{
    judge_head, judge_payload, status_is_success, HeadVerdict, SIZE_LIMIT,
};
use repo_exporter::github::request::{
    length_header, make_content_request, make_tree_request, remaining_header,
};
use repo_exporter::github::tree::{make_tree_failure, select_paths};
use repo_exporter::github::types::{
    EntryKind, FetchError, FetchSkip, FetchedFile, FileContent, GitHubError, GitTreeEntry,
    GitTreeResponse, RepositoryCoordinate,
};

fn text(s: &str) -> Option<String> {
    Some(s.to_string())
}

fn entry(path: &str, kind: &str) -> GitTreeEntry {
    GitTreeEntry { path: path.to_string(), kind: kind.to_string() }
}

fn payload(content: &str, encoding: &str) -> Option<FileContent> {
    Some(FileContent { content: content.to_string(), encoding: encoding.to_string() })
}

#[test]
fn the_pauses() {
    assert_eq!(BACKOFF_MILLIS, 60_000);
    assert_eq!(PACING_MILLIS, 100);
    assert_eq!(SIZE_LIMIT, 1_000_000);
}

#[test]
fn signal_from_the_header() {
    assert_eq!(read_signal(&text("0")), RateLimitSignal { remaining: Some(0) });
    assert_eq!(read_signal(&text("4999")), RateLimitSignal { remaining: Some(4999) });
    assert_eq!(read_signal(&text("-1")), RateLimitSignal { remaining: Some(-1) });
    assert_eq!(read_signal(&text("none")), RateLimitSignal { remaining: None });
    assert_eq!(read_signal(&text("")), RateLimitSignal { remaining: None });
    assert_eq!(read_signal(&None), RateLimitSignal { remaining: None });
}

#[test]
fn only_a_count_of_zero_calls_for_a_pause() {
    assert!(RateLimitSignal { remaining: Some(0) }.is_exhausted());
    assert!(!RateLimitSignal { remaining: Some(1) }.is_exhausted());
    assert!(!RateLimitSignal { remaining: Some(-1) }.is_exhausted());
    assert!(!RateLimitSignal { remaining: None }.is_exhausted());
}

#[test]
fn success_is_a_status_in_the_two_hundreds() {
    assert!(status_is_success(200));
    assert!(status_is_success(204));
    assert!(status_is_success(299));
    assert!(!status_is_success(199));
    assert!(!status_is_success(300));
    assert!(!status_is_success(404));
    assert!(!status_is_success(0));
    assert!(!status_is_success(u16::MAX));
}

#[test]
fn throttling_with_no_calls_left_backs_off() {
    assert_eq!(judge_head(403, &text("0"), &None), HeadVerdict::BackOff);
    assert_eq!(judge_head(403, &text("-0"), &None), HeadVerdict::BackOff);
    assert_eq!(judge_head(403, &text("+0"), &None), HeadVerdict::BackOff);
    assert_eq!(judge_head(403, &text("00"), &None), HeadVerdict::BackOff);
    assert_eq!(judge_head(403, &text("0"), &text("2000000")), HeadVerdict::BackOff);
}

#[test]
fn throttling_with_calls_left_or_no_count_is_forbidden() {
    let forbidden = HeadVerdict::Skip(FetchSkip::Forbidden);
    assert_eq!(judge_head(403, &text("1"), &None), forbidden);
    assert_eq!(judge_head(403, &text("4999"), &None), forbidden);
    assert_eq!(judge_head(403, &None, &None), forbidden);
    assert_eq!(judge_head(403, &text(""), &None), forbidden);
    assert_eq!(judge_head(403, &text("zero"), &None), forbidden);
    assert_eq!(judge_head(403, &text(" 0"), &None), forbidden);
    assert_eq!(judge_head(403, &text("0.0"), &None), forbidden);
    assert_eq!(judge_head(403, &text("99999999999"), &None), forbidden);
    assert_eq!(judge_head(403, &text("5"), &text("2000000")), forbidden);
}

#[test]
fn a_declared_size_over_the_limit_is_too_large() {
    let too_large = HeadVerdict::Skip(FetchSkip::TooLarge);
    assert_eq!(judge_head(200, &None, &text("1000001")), too_large);
    assert_eq!(judge_head(200, &text("0"), &text("1000001")), too_large);
    assert_eq!(judge_head(200, &None, &text("5000000000")), too_large);
    assert_eq!(judge_head(200, &None, &text("99999999999999999999999")), too_large);
    assert_eq!(judge_head(404, &None, &text("1000001")), too_large);
    assert_eq!(judge_head(500, &None, &text("1000001")), too_large);
}

#[test]
fn a_declared_size_within_the_limit_is_read() {
    assert_eq!(judge_head(200, &None, &text("1000000")), HeadVerdict::ReadBody);
    assert_eq!(judge_head(200, &None, &text("0")), HeadVerdict::ReadBody);
    assert_eq!(judge_head(200, &None, &None), HeadVerdict::ReadBody);
    assert_eq!(judge_head(200, &None, &text("unknown")), HeadVerdict::ReadBody);
    assert_eq!(judge_head(200, &None, &text("-5000000")), HeadVerdict::ReadBody);
    assert_eq!(judge_head(206, &text("0"), &text("12")), HeadVerdict::ReadBody);
}

#[test]
fn a_failure_status_is_a_transient_error() {
    let transient = HeadVerdict::Skip(FetchSkip::TransientError);
    assert_eq!(judge_head(404, &None, &None), transient);
    assert_eq!(judge_head(500, &None, &text("12")), transient);
    assert_eq!(judge_head(301, &None, &None), transient);
    assert_eq!(judge_head(429, &text("0"), &None), transient);
    assert_eq!(judge_head(199, &None, &None), transient);
}

#[test]
fn a_payload_yields_the_file_or_a_reason() {
    assert_eq!(
        judge_payload("src/a.rs", payload("Zm4gYSgpIHt9\n", "base64")),
        Ok(FetchedFile { path: "src/a.rs".to_string(), content: "fn a() {}".to_string() })
    );
    assert_eq!(
        judge_payload("empty", payload("", "base64")),
        Ok(FetchedFile { path: "empty".to_string(), content: String::new() })
    );
    assert_eq!(judge_payload("a", None), Err(FetchSkip::DecodeFailed));
    assert_eq!(judge_payload("a", payload("Zm4gYSgpIHt9", "utf-8")), Err(FetchSkip::DecodeFailed));
    assert_eq!(judge_payload("a", payload("Zm4gYSgpIHt9", "BASE64")), Err(FetchSkip::DecodeFailed));
    assert_eq!(judge_payload("a", payload("Zm4gYSgpIHt9", "")), Err(FetchSkip::DecodeFailed));
    assert_eq!(judge_payload("a", payload("***", "base64")), Err(FetchSkip::DecodeFailed));
    assert_eq!(
        judge_payload("a", payload(&STANDARD.encode([0x89, 0x50, 0x4e, 0x47]), "base64")),
        Err(FetchSkip::Binary)
    );
}

#[test]
fn kinds_of_entries() {
    assert_eq!(entry("a", "blob").entry_kind(), EntryKind::Blob);
    assert_eq!(entry("a", "tree").entry_kind(), EntryKind::Tree);
    assert_eq!(entry("a", "commit").entry_kind(), EntryKind::Tree);
    assert_eq!(entry("a", "").entry_kind(), EntryKind::Tree);
    assert_eq!(entry("a", "Blob").entry_kind(), EntryKind::Tree);
}

#[test]
fn eligible_paths_of_a_listing() {
    let listing = GitTreeResponse {
        tree: vec![
            entry("src", "tree"),
            entry("src/main.rs", "blob"),
            entry("target/debug/app", "blob"),
            entry("README.md", "blob"),
            entry("vendor", "commit"),
            entry("app.exe", "blob"),
            entry("docs/.DS_Store", "blob"),
            entry("a.rs", "blob"),
        ],
    };
    assert_eq!(select_paths(&listing), vec!["src/main.rs", "README.md", "a.rs"]);
    assert_eq!(select_paths(&GitTreeResponse { tree: vec![] }), Vec::<String>::new());
    assert_eq!(
        select_paths(&GitTreeResponse { tree: vec![entry("a", "tree"), entry("b.so", "blob")] }),
        Vec::<String>::new()
    );
}

#[test]
fn failure_of_the_listing() {
    assert_eq!(
        make_tree_failure(
            404,
            Some(GitHubError { message: "Not Found".to_string(), documentation_url: None })
        ),
        FetchError::ApiError { status: 404, message: "Not Found".to_string() }
    );
    assert_eq!(
        make_tree_failure(
            401,
            Some(GitHubError {
                message: "Bad credentials".to_string(),
                documentation_url: Some("https://docs.github.com/rest".to_string()),
            })
        ),
        FetchError::ApiError { status: 401, message: "Bad credentials".to_string() }
    );
    assert_eq!(
        make_tree_failure(502, None),
        FetchError::ApiError { status: 502, message: "<unrecognized>".to_string() }
    );
}

#[test]
fn requests_on_the_wire() {
    let coordinate =
        RepositoryCoordinate { owner: "tidynest".to_string(), name: "repo_exporter".to_string() };
    let tree = make_tree_request(&coordinate, "secret");
    assert_eq!(
        tree.url,
        "https://api.github.com/repos/tidynest/repo_exporter/git/trees/HEAD?recursive=1"
    );
    assert_eq!(tree.token, "secret");
    assert_eq!(tree.user_agent, "Rust-GitHubClient");
    let content = make_content_request(&coordinate, "secret", "src/main.rs");
    assert_eq!(
        content.url,
        "https://api.github.com/repos/tidynest/repo_exporter/contents/src/main.rs"
    );
    assert_eq!(content.token, "secret");
    assert_eq!(content.user_agent, "Rust-GitHubClient");
    assert_eq!(remaining_header(), "x-ratelimit-remaining");
    assert_eq!(length_header(), "content-length");
}
