//! What holds of every run, whatever the service answers.

use crate::github::backoff::{signal_of, BACKOFF_MILLIS, PACING_MILLIS};
use crate::github::client::{
    spec_step, ActionView, Cause, EventView, FetchRunView, Phase, StepView,
};
use crate::github::content::{
    declared_too_large, head_verdict, is_success, is_throttling, payload_verdict, HeadVerdict,
};
use crate::github::decoder::{
    decoded_text, standard_decoding, text_of, without_line_breaks, DecodeFailure,
};
use crate::github::tree::{eligibility, eligible_paths, is_eligible};
use crate::github::types::{
    EntryKind, FetchErrorView, FetchSkip, FetchedFileView, FileContentView, GitTreeEntryView,
};
use crate::utils::is_excluded;
use vstd::prelude::*;
use vstd::utf8::{encode_utf8, encode_utf8_decode_utf8, encode_utf8_valid_utf8, valid_utf8};

verus! {

/// The paths of `files`, in order.
pub open spec fn paths_of(files: Seq<FetchedFileView>) -> Seq<Seq<char>> {
    files.map_values(|file: FetchedFileView| file.path)
}

/// `part` is what is left of `whole` when some of its items are taken out:
/// the items of `part` stand in `whole`, in the same order.
pub open spec fn is_subsequence<T>(part: Seq<T>, whole: Seq<T>) -> bool
    decreases whole.len(),
{
    if part.len() == 0 {
        true
    } else if whole.len() == 0 {
        false
    } else if part.last() == whole.last() && is_subsequence(part.drop_last(), whole.drop_last()) {
        true
    } else {
        is_subsequence(part, whole.drop_last())
    }
}

/// Where a run ends when it is told `events` one after another: `None`
/// where they are used up before it ends.
pub open spec fn outcome(run: FetchRunView, events: Seq<EventView>) -> Option<
    Result<Seq<FetchedFileView>, FetchErrorView>,
>
    decreases events.len(),
{
    if events.len() == 0 {
        None
    } else {
        match spec_step(run, events[0]) {
            StepView::Finished(result) => Some(result),
            StepView::Next { run: next, .. } => outcome(next, events.drop_first()),
        }
    }
}

/// The files fetched so far are, in order, among the paths that the run has
/// dealt with.
pub open spec fn in_listed_order(run: FetchRunView) -> bool {
    is_subsequence(paths_of(run.files), run.queue.take(run.position as int))
}

/// If the transport decoder yields the UTF-8 bytes of a text for a payload,
/// decoding the payload yields that text.
pub proof fn decoding_restores_text(raw: Seq<char>, text: Seq<char>)
    requires
        standard_decoding(without_line_breaks(encode_utf8(raw))) == Some(encode_utf8(text)),
    ensures
        decoded_text(raw) == Ok::<Seq<char>, DecodeFailure>(text),
{
    encode_utf8_valid_utf8(text);
    encode_utf8_decode_utf8(text);
}

/// Bytes that are not valid UTF-8 are never text: a payload that decodes to
/// them is left out as binary, the run goes on to its pause, and its files
/// are as before.
pub proof fn binary_payload_is_skipped(run: FetchRunView, payload: FileContentView, bytes: Seq<u8>)
    requires
        run.phase == Phase::AwaitContent,
        payload.encoding == "base64"@,
        standard_decoding(without_line_breaks(encode_utf8(payload.content))) == Some(bytes),
        !valid_utf8(bytes),
    ensures
        text_of(Some(bytes)) == Err::<Seq<char>, DecodeFailure>(DecodeFailure::NotText),
        payload_verdict(run.queue[run.position as int], Some(payload)) == Err::<
            FetchedFileView,
            FetchSkip,
        >(FetchSkip::Binary),
        spec_step(run, EventView::Content(Some(payload))) == (StepView::Next {
            run: FetchRunView {
                phase: Phase::Pausing(Cause::Skipped(FetchSkip::Binary)),
                position: run.position + 1,
                ..run
            },
            action: ActionView::Pause {
                millis: PACING_MILLIS,
                cause: Cause::Skipped(FetchSkip::Binary),
            },
        }),
{
}

/// A response that declares a size over the limit never has its body read.
/// Unless it is a throttling response, whose file waits for a retry or is
/// refused, its file is left out as too large.
pub proof fn oversized_body_is_never_read(
    run: FetchRunView,
    status: u16,
    remaining: Option<Seq<char>>,
    length: Option<Seq<char>>,
)
    requires
        run.phase == Phase::AwaitContentHead,
        declared_too_large(length),
    ensures
        head_verdict(status, remaining, length) != HeadVerdict::ReadBody,
        spec_step(run, EventView::Head { status, remaining, length }) matches StepView::Next {
            action,
            ..
        } && action is Pause,
        !is_throttling(status) ==> spec_step(run, EventView::Head { status, remaining, length })
            == run.settle(Err(FetchSkip::TooLarge)),
{
}

/// A throttling response that says no call is left makes the run pause for
/// the rate limit and then ask for the same file again, with nothing else
/// changed. A throttling response that does not say so never makes the run
/// pause for the rate limit: its file is refused and the run moves on.
pub proof fn throttling_pauses_only_when_exhausted(
    run: FetchRunView,
    status: u16,
    remaining: Option<Seq<char>>,
    length: Option<Seq<char>>,
)
    requires
        run.wf(),
        run.phase == Phase::AwaitContentHead,
        is_throttling(status),
    ensures
        signal_of(remaining).exhausted() ==> {
            let paused = run.at(Phase::Pausing(Cause::RateLimited));
            &&& spec_step(run, EventView::Head { status, remaining, length }) == (StepView::Next {
                run: paused,
                action: ActionView::Pause { millis: BACKOFF_MILLIS, cause: Cause::RateLimited },
            })
            &&& spec_step(paused, EventView::Resumed) == (StepView::Next {
                run,
                action: ActionView::Send(run.current_request()),
            })
        },
        !signal_of(remaining).exhausted() ==> spec_step(
            run,
            EventView::Head { status, remaining, length },
        ) == (StepView::Next {
            run: FetchRunView {
                phase: Phase::Pausing(Cause::Skipped(FetchSkip::Forbidden)),
                position: run.position + 1,
                ..run
            },
            action: ActionView::Pause {
                millis: PACING_MILLIS,
                cause: Cause::Skipped(FetchSkip::Forbidden),
            },
        }),
{
}

/// A tree-listing response with a failure status ends the run with that
/// status as its error: the run asks for the error payload and for nothing
/// else, and whatever answer it gets ends it.
pub proof fn failed_listing_is_fatal(
    run: FetchRunView,
    status: u16,
    remaining: Option<Seq<char>>,
    length: Option<Seq<char>>,
    event: EventView,
)
    requires
        run.phase == Phase::AwaitTreeHead,
        !is_success(status),
    ensures
        spec_step(run, EventView::Head { status, remaining, length }) == (StepView::Next {
            run: run.at(Phase::AwaitProblem { status }),
            action: ActionView::ReadProblem,
        }),
        match spec_step(run.at(Phase::AwaitProblem { status }), event) {
            StepView::Finished(result) => result matches Err(
                FetchErrorView::ApiError { status: reported, .. },
            ) && reported == status,
            StepView::Next { run: next, action } => next == run.at(Phase::AwaitProblem { status })
                && action == ActionView::ReadProblem,
        },
{
}

/// After a tree-listing response with a failure status a run never ends
/// with files: whatever it is told from then on, it has either not ended
/// or has ended with that status as its error.
pub proof fn failed_listing_yields_no_files(
    run: FetchRunView,
    status: u16,
    remaining: Option<Seq<char>>,
    length: Option<Seq<char>>,
    events: Seq<EventView>,
)
    requires
        run.phase == Phase::AwaitTreeHead,
        !is_success(status),
    ensures
        match outcome(run, seq![EventView::Head { status, remaining, length }] + events) {
            None => true,
            Some(result) => result matches Err(FetchErrorView::ApiError { status: reported, .. })
                && reported == status,
        },
{
    let all = seq![EventView::Head { status, remaining, length }] + events;
    assert(all[0] == EventView::Head { status, remaining, length });
    assert(all.drop_first() =~= events);
    lemma_awaiting_problem(run.at(Phase::AwaitProblem { status }), status, events);
}

/// A run that waits for an error payload ends with nothing but the error
/// of its status.
proof fn lemma_awaiting_problem(run: FetchRunView, status: u16, events: Seq<EventView>)
    requires
        run.phase == (Phase::AwaitProblem { status }),
    ensures
        match outcome(run, events) {
            None => true,
            Some(result) => result matches Err(FetchErrorView::ApiError { status: reported, .. })
                && reported == status,
        },
    decreases events.len(),
{
    if events.len() > 0 {
        if let StepView::Next { run: next, .. } = spec_step(run, events[0]) {
            lemma_awaiting_problem(next, status, events.drop_first());
        }
    }
}

/// A listing without a file has no eligible entry.
pub proof fn listing_without_files_has_no_paths(tree: Seq<GitTreeEntryView>)
    requires
        forall|i: int| 0 <= i < tree.len() ==> (#[trigger] tree[i]).entry_kind() != EntryKind::Blob,
    ensures
        eligible_paths(tree).len() == 0,
    decreases tree.len(),
{
    reveal(Seq::filter);
    if tree.len() > 0 {
        listing_without_files_has_no_paths(tree.drop_last());
    }
}

/// A listing without an eligible entry ends the run at once, with no files
/// and no error.
pub proof fn empty_listing_ends_well(run: FetchRunView, tree: Seq<GitTreeEntryView>)
    requires
        run.wf(),
        run.phase == Phase::AwaitListing,
        eligible_paths(tree).len() == 0,
    ensures
        spec_step(run, EventView::Listing(Some(tree))) == StepView::Finished(
            Ok(Seq::<FetchedFileView>::empty()),
        ),
{
    assert(run.files =~= Seq::<FetchedFileView>::empty());
}

/// Nothing is a part of everything.
pub proof fn lemma_empty_is_subsequence<T>(part: Seq<T>, whole: Seq<T>)
    requires
        part.len() == 0,
    ensures
        is_subsequence(part, whole),
{
}

/// A part stays a part when the whole grows.
pub proof fn lemma_subsequence_of_longer<T>(part: Seq<T>, whole: Seq<T>, item: T)
    requires
        is_subsequence(part, whole),
    ensures
        is_subsequence(part, whole.push(item)),
{
    assert(whole.push(item).drop_last() =~= whole);
}

/// A part stays a part when both grow by the same item.
pub proof fn lemma_subsequence_grows<T>(part: Seq<T>, whole: Seq<T>, item: T)
    requires
        is_subsequence(part, whole),
    ensures
        is_subsequence(part.push(item), whole.push(item)),
{
    assert(whole.push(item).drop_last() =~= whole);
    assert(part.push(item).drop_last() =~= part);
}

/// A part is no longer than the whole.
pub proof fn lemma_subsequence_is_shorter<T>(part: Seq<T>, whole: Seq<T>)
    requires
        is_subsequence(part, whole),
    ensures
        part.len() <= whole.len(),
    decreases whole.len(),
{
    if part.len() > 0 && whole.len() > 0 {
        if part.last() == whole.last() && is_subsequence(part.drop_last(), whole.drop_last()) {
            lemma_subsequence_is_shorter(part.drop_last(), whole.drop_last());
        } else {
            lemma_subsequence_is_shorter(part, whole.drop_last());
        }
    }
}

/// A run that goes on stays well formed, keeps its files in listed order,
/// and, once it has its listing, keeps its queue.
pub proof fn step_keeps_listed_order(run: FetchRunView, event: EventView)
    requires
        run.wf(),
        in_listed_order(run),
    ensures
        spec_step(run, event) matches StepView::Next { run: next, .. } ==> {
            &&& next.wf()
            &&& in_listed_order(next)
            &&& next.coordinate == run.coordinate
            &&& next.token == run.token
            &&& run.phase != Phase::AwaitListing ==> next.queue == run.queue
        },
{
    if let StepView::Next { run: next, .. } = spec_step(run, event) {
        let done = run.queue.take(run.position as int);
        if next.position == run.position + 1 {
            assert(run.queue.take(run.position as int + 1) =~= done.push(
                run.queue[run.position as int],
            ));
            if next.files == run.files {
                lemma_subsequence_of_longer(
                    paths_of(run.files),
                    done,
                    run.queue[run.position as int],
                );
            } else {
                let file = next.files.last();
                assert(next.files == run.files.push(file));
                assert(paths_of(next.files) =~= paths_of(run.files).push(file.path));
                lemma_subsequence_grows(paths_of(run.files), done, file.path);
            }
        } else if run.phase == Phase::AwaitListing && next.phase != Phase::AwaitListing {
            assert(paths_of(next.files) =~= Seq::<Seq<char>>::empty());
            lemma_empty_is_subsequence(paths_of(next.files), next.queue.take(0));
        }
    }
}

/// Once a run has its listing, the files it ends with are among the paths
/// of its queue, in the order of the queue.
pub proof fn queue_bounds_outcome(
    run: FetchRunView,
    events: Seq<EventView>,
    files: Seq<FetchedFileView>,
)
    requires
        run.wf(),
        in_listed_order(run),
        run.phase is AwaitContentHead || run.phase is AwaitContent || run.phase is Pausing,
        outcome(run, events) == Some(Ok::<Seq<FetchedFileView>, FetchErrorView>(files)),
    ensures
        is_subsequence(paths_of(files), run.queue),
    decreases events.len(),
{
    match spec_step(run, events[0]) {
        StepView::Finished(result) => {
            assert(run.queue.take(run.position as int) =~= run.queue);
        },
        StepView::Next { run: next, .. } => {
            step_keeps_listed_order(run, events[0]);
            queue_bounds_outcome(next, events.drop_first(), files);
        },
    }
}

/// The files that a run ends with are among the eligible entries of its
/// listing, in listed order, and so are no more than these: whatever
/// follows the listing `tree`, a run that ends with `files` has fetched
/// each of them from a path of `eligible_paths(tree)`, and none out of
/// turn.
pub proof fn listing_bounds_outcome(
    run: FetchRunView,
    tree: Seq<GitTreeEntryView>,
    events: Seq<EventView>,
    files: Seq<FetchedFileView>,
)
    requires
        run.wf(),
        run.phase == Phase::AwaitListing,
        outcome(run, seq![EventView::Listing(Some(tree))] + events) == Some(
            Ok::<Seq<FetchedFileView>, FetchErrorView>(files),
        ),
    ensures
        is_subsequence(paths_of(files), eligible_paths(tree)),
        files.len() <= eligible_paths(tree).len(),
{
    let all = seq![EventView::Listing(Some(tree))] + events;
    assert(all[0] == EventView::Listing(Some(tree)));
    assert(all.drop_first() =~= events);
    assert(paths_of(run.files) =~= Seq::<Seq<char>>::empty());
    lemma_empty_is_subsequence(paths_of(run.files), run.queue.take(run.position as int));
    match spec_step(run, all[0]) {
        StepView::Finished(result) => {
            assert(paths_of(files) =~= Seq::<Seq<char>>::empty());
        },
        StepView::Next { run: next, .. } => {
            step_keeps_listed_order(run, all[0]);
            queue_bounds_outcome(next, events, files);
        },
    }
    lemma_subsequence_is_shorter(paths_of(files), eligible_paths(tree));
}

/// Each item of a part is an item of the whole.
pub proof fn lemma_subsequence_items<T>(part: Seq<T>, whole: Seq<T>, i: int)
    requires
        is_subsequence(part, whole),
        0 <= i < part.len(),
    ensures
        whole.contains(part[i]),
    decreases whole.len(),
{
    if part.last() == whole.last() && is_subsequence(part.drop_last(), whole.drop_last()) {
        if i == part.len() - 1 {
            assert(whole[whole.len() - 1] == part[i]);
        } else {
            lemma_subsequence_items(part.drop_last(), whole.drop_last(), i);
            let at = choose|at: int|
                0 <= at < whole.drop_last().len() && whole.drop_last()[at] == part.drop_last()[i];
            assert(whole[at] == part[i]);
        }
    } else {
        lemma_subsequence_items(part, whole.drop_last(), i);
        let at = choose|at: int| 0 <= at < whole.drop_last().len() && whole.drop_last()[at] == part[i];
        assert(whole[at] == part[i]);
    }
}

/// Each eligible path is the path of an eligible entry of the listing.
pub proof fn eligible_path_is_listed(tree: Seq<GitTreeEntryView>, i: int)
    requires
        0 <= i < eligible_paths(tree).len(),
    ensures
        exists|k: int|
            0 <= k < tree.len() && is_eligible(#[trigger] tree[k]) && tree[k].path
                == eligible_paths(tree)[i],
{
    let kept = tree.filter(eligibility());
    tree.lemma_filter_pred(eligibility(), i);
    tree.lemma_filter_contains_rev(eligibility(), kept[i]);
    let k = choose|k: int| 0 <= k < tree.len() && tree[k] == kept[i];
    assert(is_eligible(tree[k]));
}

/// No excluded path and nothing but files reach the outcome: each file
/// that a run ends with was fetched from the path of an entry of its
/// listing that is a file and is not excluded.
pub proof fn outcome_holds_eligible_files_only(
    run: FetchRunView,
    tree: Seq<GitTreeEntryView>,
    events: Seq<EventView>,
    files: Seq<FetchedFileView>,
    i: int,
)
    requires
        run.wf(),
        run.phase == Phase::AwaitListing,
        outcome(run, seq![EventView::Listing(Some(tree))] + events) == Some(
            Ok::<Seq<FetchedFileView>, FetchErrorView>(files),
        ),
        0 <= i < files.len(),
    ensures
        !is_excluded(files[i].path),
        exists|k: int|
            0 <= k < tree.len() && (#[trigger] tree[k]).entry_kind() == EntryKind::Blob
                && tree[k].path == files[i].path,
{
    listing_bounds_outcome(run, tree, events, files);
    lemma_subsequence_items(paths_of(files), eligible_paths(tree), i);
    let at = choose|at: int|
        0 <= at < eligible_paths(tree).len() && eligible_paths(tree)[at] == paths_of(files)[i];
    eligible_path_is_listed(tree, at);
}

} // verus!
