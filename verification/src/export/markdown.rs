//! The document that an export writes: a heading that names the repository,
//! then one section for each file, in order.

use crate::github::types::{FetchedFile, FetchedFileView};
use vstd::prelude::*;

verus! {

/// The heading of the document.
pub open spec fn heading(owner: Seq<char>, repo: Seq<char>) -> Seq<char> {
    "# Repository Export: "@ + owner + "/"@ + repo + "\n\n"@
}

/// The section of one file: its path as a title, then its content in a
/// fenced block.
pub open spec fn section(file: FetchedFileView) -> Seq<char> {
    "## "@ + file.path + "\n\n"@ + "```text\n"@ + file.content + "\n```\n"@
}

/// The sections of `files`, one after another.
pub open spec fn sections(files: Seq<FetchedFileView>) -> Seq<char>
    decreases files.len(),
{
    if files.len() == 0 {
        Seq::empty()
    } else {
        sections(files.drop_last()) + section(files.last())
    }
}

/// The document for the files of a repository.
pub open spec fn document(owner: Seq<char>, repo: Seq<char>, files: Seq<FetchedFileView>) -> Seq<
    char,
> {
    heading(owner, repo) + sections(files)
}

/// The name of the file that an export of `repo` made at `timestamp` is
/// written to.
pub open spec fn export_name(repo: Seq<char>, timestamp: Seq<char>) -> Seq<char> {
    repo + "_repo_export_"@ + timestamp + ".md"@
}

/// Renders the document for the files of a repository.
pub fn render_markdown(owner: &str, repo: &str, files: &Vec<FetchedFile>) -> (text: String)
    ensures
        text@ == document(owner@, repo@, files.deep_view()),
{
    let mut text = String::from_str("# Repository Export: ");
    text.append(owner);
    text.append("/");
    text.append(repo);
    text.append("\n\n");
    let mut i: usize = 0;
    assert(files.deep_view().take(0) =~= Seq::<FetchedFileView>::empty());
    assert(text@ =~= heading(owner@, repo@) + sections(files.deep_view().take(0)));
    while i < files.len()
        invariant
            i <= files.len(),
            text@ == heading(owner@, repo@) + sections(files.deep_view().take(i as int)),
        decreases files.len() - i,
    {
        let file = &files[i];
        let ghost before = text@;
        assert(files.deep_view().take(i + 1).drop_last() =~= files.deep_view().take(i as int));
        assert(files.deep_view().take(i + 1).last() == file@);
        text.append("## ");
        text.append(file.path.as_str());
        text.append("\n\n");
        text.append("```text\n");
        text.append(file.content.as_str());
        text.append("\n```\n");
        assert(text@ =~= before + section(file@));
        assert(text@ =~= heading(owner@, repo@) + sections(files.deep_view().take(i + 1)));
        i += 1;
    }
    assert(files.deep_view().take(files.len() as int) =~= files.deep_view());
    text
}

/// Builds the name of the file that an export of `repo` made at
/// `timestamp` is written to.
pub fn export_file_name(repo: &str, timestamp: &str) -> (name: String)
    ensures
        name@ == export_name(repo@, timestamp@),
{
    let mut name = String::from_str(repo);
    name.append("_repo_export_");
    name.append(timestamp);
    name.append(".md");
    name
}

} // verus!
