//! The values that travel between the hosting service and a run, and what a
//! run hands on.

use crate::text::same_text;
use vstd::prelude::*;

verus! {

/// The answer to a tree-listing request: one entry per item of the
/// repository, in the order in which the service lists them.
#[derive(Debug, PartialEq, Eq)]
pub struct GitTreeResponse {
    pub tree: Vec<GitTreeEntry>,
}

/// One item of a tree listing. `kind` is the service's `type` field:
/// `"blob"` for a file, `"tree"` for a directory.
#[derive(Debug, PartialEq, Eq)]
pub struct GitTreeEntry {
    pub path: String,
    pub kind: String,
}

/// The payload of a content response: the file's bytes in a transport
/// encoding, and the name of that encoding.
#[derive(Debug, PartialEq, Eq)]
pub struct FileContent {
    pub content: String,
    pub encoding: String,
}

/// The body of an error response.
#[derive(Debug, PartialEq, Eq)]
pub struct GitHubError {
    pub message: String,
    pub documentation_url: Option<String>,
}

/// Names a repository for the lifetime of one run.
#[derive(Debug, PartialEq, Eq)]
pub struct RepositoryCoordinate {
    pub owner: String,
    pub name: String,
}

/// Whether a tree entry is a file or not.
#[derive(Debug, Clone, Copy, PartialEq, Eq, Structural)]
pub enum EntryKind {
    /// A file.
    Blob,
    /// A directory, or anything else that is not a file.
    Tree,
}

/// One file that was fetched and decoded as text.
#[derive(Debug, PartialEq, Eq)]
pub struct FetchedFile {
    pub path: String,
    pub content: String,
}

/// What a run hands on: the files it fetched, in the order of the listing.
pub type FetchOutcome = Vec<FetchedFile>;

/// Why a file was left out of the outcome. None of these ends a run.
#[derive(Debug, Clone, Copy, PartialEq, Eq, Structural)]
pub enum FetchSkip {
    /// The declared size is over the limit.
    TooLarge,
    /// The decoded bytes are not text.
    Binary,
    /// The service refused the request.
    Forbidden,
    /// The payload could not be read or decoded.
    DecodeFailed,
    /// The request failed or was answered with a failure status.
    TransientError,
}

/// Why a run ended without an outcome.
#[derive(Debug, PartialEq, Eq)]
pub enum FetchError {
    /// The service answered the tree-listing request with a failure status.
    ApiError { status: u16, message: String },
    /// The tree-listing request could not be carried out.
    Transport,
    /// The tree listing could not be read.
    MalformedListing,
}

/// A tree entry, as its characters.
pub struct GitTreeEntryView {
    pub path: Seq<char>,
    pub kind: Seq<char>,
}

/// A payload, as its characters.
pub struct FileContentView {
    pub content: Seq<char>,
    pub encoding: Seq<char>,
}

/// An error payload, as its characters.
pub struct GitHubErrorView {
    pub message: Seq<char>,
    pub documentation_url: Option<Seq<char>>,
}

/// A coordinate, as its characters.
pub struct RepositoryCoordinateView {
    pub owner: Seq<char>,
    pub name: Seq<char>,
}

/// A fetched file, as its characters.
pub struct FetchedFileView {
    pub path: Seq<char>,
    pub content: Seq<char>,
}

/// The error of a run, as its characters.
pub enum FetchErrorView {
    ApiError { status: u16, message: Seq<char> },
    Transport,
    MalformedListing,
}

impl View for GitTreeEntry {
    type V = GitTreeEntryView;

    open spec fn view(&self) -> GitTreeEntryView {
        GitTreeEntryView { path: self.path@, kind: self.kind@ }
    }
}

impl DeepView for GitTreeEntry {
    type V = GitTreeEntryView;

    open spec fn deep_view(&self) -> GitTreeEntryView {
        self@
    }
}

impl View for GitTreeResponse {
    type V = Seq<GitTreeEntryView>;

    open spec fn view(&self) -> Seq<GitTreeEntryView> {
        self.tree.deep_view()
    }
}

impl DeepView for GitTreeResponse {
    type V = Seq<GitTreeEntryView>;

    open spec fn deep_view(&self) -> Seq<GitTreeEntryView> {
        self@
    }
}

impl View for FileContent {
    type V = FileContentView;

    open spec fn view(&self) -> FileContentView {
        FileContentView { content: self.content@, encoding: self.encoding@ }
    }
}

impl DeepView for FileContent {
    type V = FileContentView;

    open spec fn deep_view(&self) -> FileContentView {
        self@
    }
}

impl View for GitHubError {
    type V = GitHubErrorView;

    open spec fn view(&self) -> GitHubErrorView {
        GitHubErrorView {
            message: self.message@,
            documentation_url: self.documentation_url.deep_view(),
        }
    }
}

impl DeepView for GitHubError {
    type V = GitHubErrorView;

    open spec fn deep_view(&self) -> GitHubErrorView {
        self@
    }
}

impl View for RepositoryCoordinate {
    type V = RepositoryCoordinateView;

    open spec fn view(&self) -> RepositoryCoordinateView {
        RepositoryCoordinateView { owner: self.owner@, name: self.name@ }
    }
}

impl View for FetchedFile {
    type V = FetchedFileView;

    open spec fn view(&self) -> FetchedFileView {
        FetchedFileView { path: self.path@, content: self.content@ }
    }
}

impl DeepView for FetchedFile {
    type V = FetchedFileView;

    open spec fn deep_view(&self) -> FetchedFileView {
        self@
    }
}

impl View for FetchError {
    type V = FetchErrorView;

    open spec fn view(&self) -> FetchErrorView {
        match self {
            FetchError::ApiError { status, message } => FetchErrorView::ApiError {
                status: *status,
                message: message@,
            },
            FetchError::Transport => FetchErrorView::Transport,
            FetchError::MalformedListing => FetchErrorView::MalformedListing,
        }
    }
}

impl GitTreeEntryView {
    /// What the entry is, by the service's `type` field.
    pub open spec fn entry_kind(self) -> EntryKind {
        if self.kind == "blob"@ {
            EntryKind::Blob
        } else {
            EntryKind::Tree
        }
    }
}

impl GitTreeEntry {
    /// What the entry is, by the service's `type` field.
    pub fn entry_kind(&self) -> (kind: EntryKind)
        ensures
            kind == self@.entry_kind(),
    {
        if same_text(self.kind.as_str(), "blob") {
            EntryKind::Blob
        } else {
            EntryKind::Tree
        }
    }
}

} // verus!
