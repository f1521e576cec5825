//! The exclusion policy: which repository paths are left out of an export.

use crate::text::{contains, ends_with, occurs_in, starts_with, to_chars};
use vstd::prelude::*;

verus! {

/// The paths that an export leaves out: build output and dependency
/// directories, the repository's own metadata, Finder metadata below a
/// directory, and compiled binaries.
pub open spec fn is_excluded(path: Seq<char>) -> bool {
    ||| "target/"@.is_prefix_of(path)
    ||| "node_modules/"@.is_prefix_of(path)
    ||| "dist/"@.is_prefix_of(path)
    ||| "build/"@.is_prefix_of(path)
    ||| ".git/"@.is_prefix_of(path)
    ||| occurs_in(path, "/.DS_Store"@)
    ||| ".dll"@.is_suffix_of(path)
    ||| ".so"@.is_suffix_of(path)
    ||| ".dylib"@.is_suffix_of(path)
    ||| ".exe"@.is_suffix_of(path)
    ||| ".bin"@.is_suffix_of(path)
}

/// Whether `path` ends with `pattern`.
fn has_extension(path: &Vec<char>, pattern: &str) -> (found: bool)
    ensures
        found == pattern@.is_suffix_of(path@),
{
    let wanted = to_chars(pattern);
    assert(path@.take(path.len() as int) =~= path@);
    ends_with(path, path.len(), &wanted)
}

/// Whether `path` is left out of an export. The answer depends on the
/// characters of `path` alone.
pub fn should_skip_path(path: &str) -> (skip: bool)
    ensures
        skip == is_excluded(path@),
{
    let chars = to_chars(path);
    starts_with(&chars, "target/") || starts_with(&chars, "node_modules/") || starts_with(
        &chars,
        "dist/",
    ) || contains(&chars, "/.DS_Store") || starts_with(&chars, "build/") || has_extension(
        &chars,
        ".dll",
    ) || has_extension(&chars, ".so") || has_extension(&chars, ".dylib") || has_extension(
        &chars,
        ".exe",
    ) || has_extension(&chars, ".bin") || starts_with(&chars, ".git/")
}

} // verus!
