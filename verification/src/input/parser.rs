//! Reading the name of a repository: an address at the hosting service, or
//! an owner and a repository with a `/` between them.

use crate::text::{
    count_char, find_char, first_position, lemma_occurs_somewhere, occurrences, starts_with,
    to_chars, trailing_removed, trim_bounds, trimmed, without_trailing,
};
use vstd::prelude::*;

verus! {

/// Why an input names no repository.
#[derive(Debug, Clone, Copy, PartialEq, Eq, Structural)]
pub enum ParseError {
    /// The input is no address at the hosting service.
    InvalidUrl,
    /// The input holds no `/`.
    InvalidFormat,
    /// The path does not have exactly two parts.
    InvalidRepository,
    /// The owner or the repository is empty.
    EmptyName,
    /// The repository, asked for by itself, is empty.
    EmptyRepositoryName,
}

/// What an input names: a repository, or only the owner of one.
#[derive(Debug, PartialEq, Eq)]
pub enum RepoInput {
    Repository(String, String),
    OwnerOnly(String),
}

/// What an input names, as its characters.
pub enum RepoInputView {
    Repository(Seq<char>, Seq<char>),
    OwnerOnly(Seq<char>),
}

impl View for RepoInput {
    type V = RepoInputView;

    open spec fn view(&self) -> RepoInputView {
        match self {
            RepoInput::Repository(owner, repo) => RepoInputView::Repository(owner@, repo@),
            RepoInput::OwnerOnly(owner) => RepoInputView::OwnerOnly(owner@),
        }
    }
}

impl ParseError {
    /// The message for the user.
    pub open spec fn text(self) -> Seq<char> {
        match self {
            ParseError::InvalidUrl => {
                "Invalid GitHub URL. Expected format: https://github.com/owner/repo"@
            },
            ParseError::InvalidFormat => {
                "Invalid format. Expected 'owner/repo' (e.g., 'tidynest/security_toolkit')"@
            },
            ParseError::InvalidRepository => {
                "Invalid repository format. Expected 'owner/repo' or GitHub URL"@
            },
            ParseError::EmptyName => "Owner and repository name cannot be empty"@,
            ParseError::EmptyRepositoryName => "Repository name cannot be empty"@,
        }
    }

    /// The message for the user.
    pub fn message(&self) -> (message: String)
        ensures
            message@ == self.text(),
    {
        match self {
            ParseError::InvalidUrl => String::from_str(
                "Invalid GitHub URL. Expected format: https://github.com/owner/repo",
            ),
            ParseError::InvalidFormat => String::from_str(
                "Invalid format. Expected 'owner/repo' (e.g., 'tidynest/security_toolkit')",
            ),
            ParseError::InvalidRepository => String::from_str(
                "Invalid repository format. Expected 'owner/repo' or GitHub URL",
            ),
            ParseError::EmptyName => String::from_str("Owner and repository name cannot be empty"),
            ParseError::EmptyRepositoryName => String::from_str("Repository name cannot be empty"),
        }
    }
}

/// The owner and the repository that `path` names. Every trailing `.git`
/// is dropped first. What is left must hold exactly one `/`; the owner
/// stands before it and the repository after it, each without the white
/// space around it, and neither may be empty.
pub open spec fn owner_and_repo(path: Seq<char>) -> Result<(Seq<char>, Seq<char>), ParseError> {
    let stem = without_trailing(path, ".git"@);
    if occurrences(stem, '/') != 1 {
        Err(ParseError::InvalidRepository)
    } else {
        let at = first_position(stem, '/');
        let owner = trimmed(stem.take(at));
        let repo = trimmed(stem.skip(at + 1));
        if owner.len() == 0 || repo.len() == 0 {
            Err(ParseError::EmptyName)
        } else {
            Ok((owner, repo))
        }
    }
}

/// The path of an address at the hosting service: what follows the host,
/// with or without a scheme before it. `None` where `address` is no such
/// address.
pub open spec fn address_path(address: Seq<char>) -> Option<Seq<char>> {
    if "https://github.com/"@.is_prefix_of(address) {
        Some(address.skip("https://github.com/"@.len() as int))
    } else if "http://github.com/"@.is_prefix_of(address) {
        Some(address.skip("http://github.com/"@.len() as int))
    } else if "github.com/"@.is_prefix_of(address) {
        Some(address.skip("github.com/"@.len() as int))
    } else {
        None
    }
}

/// The owner and the repository that the address `url` names, the white
/// space around it aside.
pub open spec fn url_repository(url: Seq<char>) -> Result<(Seq<char>, Seq<char>), ParseError> {
    match address_path(trimmed(url)) {
        Some(path) => owner_and_repo(path),
        None => Err(ParseError::InvalidUrl),
    }
}

/// The owner and the repository that `input` names in the form
/// `owner/repo`.
pub open spec fn format_repository(input: Seq<char>) -> Result<(Seq<char>, Seq<char>), ParseError> {
    if occurrences(input, '/') == 0 {
        Err(ParseError::InvalidFormat)
    } else {
        owner_and_repo(input)
    }
}

/// What `input` names, the white space around it aside: the repository of
/// an address, the repository of an `owner/repo`, or, where it holds no
/// `/`, an owner alone.
pub open spec fn input_repository(input: Seq<char>) -> Result<RepoInputView, ParseError> {
    let text = trimmed(input);
    let path = match address_path(text) {
        Some(path) => Some(path),
        None => if occurrences(text, '/') > 0 {
            Some(text)
        } else {
            None
        },
    };
    match path {
        Some(path) => match owner_and_repo(path) {
            Ok((owner, repo)) => Ok(RepoInputView::Repository(owner, repo)),
            Err(error) => Err(error),
        },
        None => Ok(RepoInputView::OwnerOnly(text)),
    }
}

/// The repository of `owner` that the line `line` names: the line without
/// the white space around it, which may not be empty.
pub open spec fn named_repository(owner: Seq<char>, line: Seq<char>) -> Result<
    (Seq<char>, Seq<char>),
    ParseError,
> {
    if trimmed(line).len() == 0 {
        Err(ParseError::EmptyRepositoryName)
    } else {
        Ok((owner, trimmed(line)))
    }
}

/// The characters of a parsed pair.
pub open spec fn pair_view(result: Result<(String, String), ParseError>) -> Result<
    (Seq<char>, Seq<char>),
    ParseError,
> {
    match result {
        Ok((owner, repo)) => Ok((owner@, repo@)),
        Err(error) => Err(error),
    }
}

/// The characters of a parsed input.
pub open spec fn input_view(result: Result<RepoInput, ParseError>) -> Result<
    RepoInputView,
    ParseError,
> {
    match result {
        Ok(input) => Ok(input@),
        Err(error) => Err(error),
    }
}

/// The characters `from..to` of `text`, as a string of their own.
pub fn slice(text: &str, from: usize, to: usize) -> (part: String)
    requires
        from <= to <= text@.len(),
    ensures
        part@ == text@.subrange(from as int, to as int),
{
    String::from_str(text.substring_char(from, to))
}

/// `text` without the white space around it.
pub fn trim(text: &str) -> (part: &str)
    ensures
        part@ == trimmed(text@),
{
    let chars = to_chars(text);
    let bounds = trim_bounds(&chars, 0, chars.len());
    assert(chars@.subrange(0, chars.len() as int) =~= chars@);
    text.substring_char(bounds.0, bounds.1)
}

/// The path of the address `address`, where it is one.
fn path_of_address(address: &str) -> (path: Option<&str>)
    ensures
        match path {
            Some(rest) => address_path(address@) == Some(rest@),
            None => address_path(address@) is None,
        },
{
    let chars = to_chars(address);
    let skipped: usize = if starts_with(&chars, "https://github.com/") {
        proof {
            reveal_strlit("https://github.com/");
        }
        19
    } else if starts_with(&chars, "http://github.com/") {
        proof {
            reveal_strlit("http://github.com/");
        }
        18
    } else if starts_with(&chars, "github.com/") {
        proof {
            reveal_strlit("github.com/");
        }
        11
    } else {
        return None;
    };
    Some(address.substring_char(skipped, chars.len()))
}

/// Reads a path such as `owner/repo` or `owner/repo.git`.
pub fn parse_owner_repo_path(path: &str) -> (result: Result<(String, String), ParseError>)
    ensures
        pair_view(result) == owner_and_repo(path@),
{
    let chars = to_chars(path);
    let suffix = to_chars(".git");
    assert(chars@.take(chars.len() as int) =~= chars@);
    let kept = trailing_removed(&chars, chars.len(), &suffix);
    let ghost stem = chars@.take(kept as int);
    if count_char(&chars, kept, '/') != 1 {
        return Err(ParseError::InvalidRepository);
    }
    let at = find_char(&chars, kept, '/');
    proof {
        lemma_occurs_somewhere(stem, '/');
    }
    let owner = trim_bounds(&chars, 0, at);
    let repo = trim_bounds(&chars, at + 1, kept);
    assert(stem.take(at as int) =~= chars@.subrange(0, at as int));
    assert(stem.skip(at + 1) =~= chars@.subrange(at + 1, kept as int));
    if owner.0 == owner.1 || repo.0 == repo.1 {
        return Err(ParseError::EmptyName);
    }
    Ok((slice(path, owner.0, owner.1), slice(path, repo.0, repo.1)))
}

/// Reads an address such as `https://github.com/owner/repo`.
pub fn parse_github_url(url: &str) -> (result: Result<(String, String), ParseError>)
    ensures
        pair_view(result) == url_repository(url@),
{
    match path_of_address(trim(url)) {
        Some(path) => parse_owner_repo_path(path),
        None => Err(ParseError::InvalidUrl),
    }
}

/// Reads an input of the form `owner/repo`.
pub fn parse_owner_repo_format(input: &str) -> (result: Result<(String, String), ParseError>)
    ensures
        pair_view(result) == format_repository(input@),
{
    let chars = to_chars(input);
    assert(chars@.take(chars.len() as int) =~= chars@);
    if count_char(&chars, chars.len(), '/') == 0 {
        return Err(ParseError::InvalidFormat);
    }
    parse_owner_repo_path(input)
}

/// Reads an input that is an address, an `owner/repo`, or an owner alone.
/// For an owner alone the repository is still to be asked for: see
/// `name_repository`.
pub fn parse_repo_input(input: &str) -> (result: Result<RepoInput, ParseError>)
    ensures
        input_view(result) == input_repository(input@),
{
    let text = trim(input);
    let path = match path_of_address(text) {
        Some(path) => Some(path),
        None => {
            let chars = to_chars(text);
            assert(chars@.take(chars.len() as int) =~= chars@);
            if count_char(&chars, chars.len(), '/') > 0 {
                Some(text)
            } else {
                None
            }
        },
    };
    match path {
        Some(path) => match parse_owner_repo_path(path) {
            Ok((owner, repo)) => Ok(RepoInput::Repository(owner, repo)),
            Err(error) => Err(error),
        },
        None => Ok(RepoInput::OwnerOnly(String::from_str(text))),
    }
}

/// Completes an owner with the repository that was asked for by itself.
pub fn name_repository(owner: &str, line: &str) -> (result: Result<(String, String), ParseError>)
    ensures
        pair_view(result) == named_repository(owner@, line@),
{
    let repo = trim(line);
    if repo.unicode_len() == 0 {
        Err(ParseError::EmptyRepositoryName)
    } else {
        Ok((String::from_str(owner), String::from_str(repo)))
    }
}

} // verus!
