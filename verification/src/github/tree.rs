//! What a tree listing yields: the files to fetch, or why there are none.

use crate::github::types::{
    EntryKind, FetchError, FetchErrorView, GitHubError, GitHubErrorView, GitTreeEntryView,
    GitTreeResponse,
};
use crate::utils::{is_excluded, should_skip_path};
use vstd::prelude::*;

verus! {

/// An entry whose content is fetched: a file whose path is not excluded.
pub open spec fn is_eligible(entry: GitTreeEntryView) -> bool {
    entry.entry_kind() == EntryKind::Blob && !is_excluded(entry.path)
}

/// The test that the listing is filtered by.
pub open spec fn eligibility() -> spec_fn(GitTreeEntryView) -> bool {
    |entry: GitTreeEntryView| is_eligible(entry)
}

/// The paths of the eligible entries of `tree`, in the order of `tree`.
pub open spec fn eligible_paths(tree: Seq<GitTreeEntryView>) -> Seq<Seq<char>> {
    tree.filter(eligibility()).map_values(|entry: GitTreeEntryView| entry.path)
}

/// The message of a failure whose body was no error payload.
pub open spec fn unrecognized() -> Seq<char> {
    "<unrecognized>"@
}

/// The error that a tree-listing response with a failure status stands
/// for, where `problem` is the error payload of its body, if it was one.
pub open spec fn tree_failure(status: u16, problem: Option<GitHubErrorView>) -> FetchErrorView {
    FetchErrorView::ApiError {
        status,
        message: match problem {
            Some(payload) => payload.message,
            None => unrecognized(),
        },
    }
}

/// Picks the files to fetch from a listing: the paths of its eligible
/// entries, in listed order.
pub fn select_paths(listing: &GitTreeResponse) -> (paths: Vec<String>)
    ensures
        paths.deep_view() == eligible_paths(listing@),
{
    let mut paths: Vec<String> = Vec::new();
    let mut i: usize = 0;
    assert(listing@.take(0) =~= Seq::<GitTreeEntryView>::empty());
    proof {
        reveal(Seq::filter);
    }
    assert(paths.deep_view() =~= eligible_paths(listing@.take(0)));
    while i < listing.tree.len()
        invariant
            i <= listing.tree.len(),
            paths.deep_view() == eligible_paths(listing@.take(i as int)),
        decreases listing.tree.len() - i,
    {
        let entry = &listing.tree[i];
        let ghost before = paths.deep_view();
        proof {
            assert(listing@.take(i + 1) =~= listing@.take(i as int).push(entry@));
            listing@.take(i as int).lemma_filter_push(entry@, eligibility());
        }
        let keep = match entry.entry_kind() {
            EntryKind::Blob => !should_skip_path(entry.path.as_str()),
            EntryKind::Tree => false,
        };
        if keep {
            paths.push(entry.path.clone());
            assert(paths.deep_view() =~= before.push(entry.path@));
            assert(eligible_paths(listing@.take(i + 1)) =~= eligible_paths(
                listing@.take(i as int),
            ).push(entry.path@));
        }
        i += 1;
    }
    assert(listing@.take(listing.tree.len() as int) =~= listing@);
    paths
}

/// Builds the error for a tree-listing response with a failure status.
pub fn make_tree_failure(status: u16, problem: Option<GitHubError>) -> (error: FetchError)
    ensures
        error@ == tree_failure(status, problem.deep_view()),
{
    let message = match problem {
        Some(payload) => payload.message,
        None => String::from_str("<unrecognized>"),
    };
    FetchError::ApiError { status, message }
}

} // verus!
