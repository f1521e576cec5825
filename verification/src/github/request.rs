//! The requests that a run sends, and the response headers it reads.

use crate::github::types::{RepositoryCoordinate, RepositoryCoordinateView};
use vstd::prelude::*;

verus! {

/// One `GET` request: the address, the bearer token that goes into its
/// `Authorization` header, and the value of its `User-Agent` header.
#[derive(Debug, PartialEq, Eq)]
pub struct Request {
    pub url: String,
    pub token: String,
    pub user_agent: String,
}

/// A request, as its characters.
pub struct RequestView {
    pub url: Seq<char>,
    pub token: Seq<char>,
    pub user_agent: Seq<char>,
}

impl View for Request {
    type V = RequestView;

    open spec fn view(&self) -> RequestView {
        RequestView { url: self.url@, token: self.token@, user_agent: self.user_agent@ }
    }
}

/// The address of the recursive listing of the default branch.
pub open spec fn tree_url(coordinate: RepositoryCoordinateView) -> Seq<char> {
    "https://api.github.com/repos/"@ + coordinate.owner + "/"@ + coordinate.name
        + "/git/trees/HEAD?recursive=1"@
}

/// The address of the content of the file at `path`.
pub open spec fn content_url(coordinate: RepositoryCoordinateView, path: Seq<char>) -> Seq<char> {
    "https://api.github.com/repos/"@ + coordinate.owner + "/"@ + coordinate.name + "/contents/"@
        + path
}

/// The request for the listing of the repository's files.
pub open spec fn tree_request(coordinate: RepositoryCoordinateView, token: Seq<char>) -> RequestView {
    RequestView { url: tree_url(coordinate), token, user_agent: "Rust-GitHubClient"@ }
}

/// The request for the content of the file at `path`.
pub open spec fn content_request(
    coordinate: RepositoryCoordinateView,
    token: Seq<char>,
    path: Seq<char>,
) -> RequestView {
    RequestView { url: content_url(coordinate, path), token, user_agent: "Rust-GitHubClient"@ }
}

/// The address that starts with the repository's own and goes on with
/// `rest`.
fn repository_url(coordinate: &RepositoryCoordinate, rest: &str) -> (url: String)
    ensures
        url@ == "https://api.github.com/repos/"@ + coordinate.owner@ + "/"@ + coordinate.name@
            + rest@,
{
    let mut url = String::from_str("https://api.github.com/repos/");
    url.append(coordinate.owner.as_str());
    url.append("/");
    url.append(coordinate.name.as_str());
    url.append(rest);
    url
}

/// Builds the request for the listing of the repository's files.
pub fn make_tree_request(coordinate: &RepositoryCoordinate, token: &str) -> (request: Request)
    ensures
        request@ == tree_request(coordinate@, token@),
{
    Request {
        url: repository_url(coordinate, "/git/trees/HEAD?recursive=1"),
        token: String::from_str(token),
        user_agent: String::from_str("Rust-GitHubClient"),
    }
}

/// Builds the request for the content of the file at `path`.
pub fn make_content_request(coordinate: &RepositoryCoordinate, token: &str, path: &str) -> (request:
    Request)
    ensures
        request@ == content_request(coordinate@, token@, path@),
{
    let mut url = repository_url(coordinate, "/contents/");
    url.append(path);
    Request {
        url,
        token: String::from_str(token),
        user_agent: String::from_str("Rust-GitHubClient"),
    }
}

/// The name of the response header that tells how many calls are left.
pub fn remaining_header() -> (name: &'static str)
    ensures
        name@ == "x-ratelimit-remaining"@,
{
    "x-ratelimit-remaining"
}

/// The name of the response header that declares the size of the body.
pub fn length_header() -> (name: &'static str)
    ensures
        name@ == "content-length"@,
{
    "content-length"
}

} // verus!
