//! The run that fetches a repository's files: one request at a time, the
//! listing first, then each eligible file in listed order.
//!
//! A run does no input or output of its own. It says what is to be done next
//! (an [`Action`]) and is told what came of it (an [`Event`]); `step` is the
//! whole of its behaviour, and `spec_step` states it.

use crate::config::Config;
use crate::github::backoff::{BACKOFF_MILLIS, PACING_MILLIS};
use crate::github::content::{
    head_verdict, judge_head, judge_payload, is_success, payload_verdict, status_is_success,
    HeadVerdict,
};
use crate::github::request::{
    content_request, make_content_request, make_tree_request, tree_request, Request, RequestView,
};
use crate::github::tree::{eligible_paths, make_tree_failure, select_paths, tree_failure};
use crate::github::types::{
    FetchError, FetchErrorView, FetchOutcome, FetchSkip, FetchedFile, FetchedFileView, FileContent,
    FileContentView, GitHubError, GitHubErrorView, GitTreeEntryView, GitTreeResponse,
    RepositoryCoordinate, RepositoryCoordinateView,
};
use vstd::prelude::*;

verus! {

/// What came of the action that a run asked for.
#[derive(Debug, PartialEq, Eq)]
pub enum Event {
    /// The request could not be carried out, or the body could not be
    /// fetched.
    Failed,
    /// A response has arrived. `remaining` and `length` are the values of
    /// the headers for the calls that are left and for the size of the
    /// body, where the response has them as text. The body is not read yet.
    Head { status: u16, remaining: Option<String>, length: Option<String> },
    /// The body was read as a tree listing: `None` where it is none.
    Listing(Option<GitTreeResponse>),
    /// The body was read as an error payload: `None` where it is none.
    Problem(Option<GitHubError>),
    /// The body was read as a file payload: `None` where it is none.
    Content(Option<FileContent>),
    /// The pause is over.
    Resumed,
}

/// Why a run pauses.
#[derive(Debug, Clone, Copy, PartialEq, Eq, Structural)]
pub enum Cause {
    /// The service has no calls left: the same file is asked for again
    /// after the pause.
    RateLimited,
    /// A file was fetched.
    Fetched,
    /// A file was left out.
    Skipped(FetchSkip),
}

/// What a run asks for next.
#[derive(Debug, PartialEq, Eq)]
pub enum Action {
    /// Send the request; answer with `Head` or `Failed`.
    Send(Request),
    /// Read the body of the response as a tree listing; answer with
    /// `Listing` or `Failed`.
    ReadListing,
    /// Read the body of the response as an error payload; answer with
    /// `Problem` or `Failed`.
    ReadProblem,
    /// Read the body of the response as a file payload; answer with
    /// `Content` or `Failed`.
    ReadContent,
    /// Wait; answer with `Resumed`.
    Pause { millis: u64, cause: Cause },
}

/// Where a run stands: what it is waiting for.
#[derive(Debug, Clone, Copy, PartialEq, Eq, Structural)]
pub enum Phase {
    /// The response to the tree-listing request.
    AwaitTreeHead,
    /// The tree listing.
    AwaitListing,
    /// The error payload of a tree-listing response with this status.
    AwaitProblem { status: u16 },
    /// The response to the request for the current file.
    AwaitContentHead,
    /// The payload of the current file.
    AwaitContent,
    /// The end of a pause.
    Pausing(Cause),
}

/// A run in progress. `queue` holds the paths to fetch, in listed order;
/// `position` counts those that are dealt with, but for a pause for the
/// rate limit, during which the file at `position` is still to be fetched;
/// `files` holds what was fetched so far.
#[derive(Debug)]
pub struct FetchRun {
    coordinate: RepositoryCoordinate,
    token: String,
    phase: Phase,
    queue: Vec<String>,
    position: usize,
    files: Vec<FetchedFile>,
}

/// One step of a run: either it goes on, or it has ended with the files it
/// fetched or with the error that ended it.
#[derive(Debug)]
pub enum Step {
    Next { run: FetchRun, action: Action },
    Finished(Result<FetchOutcome, FetchError>),
}

/// An event, as its characters.
pub enum EventView {
    Failed,
    Head { status: u16, remaining: Option<Seq<char>>, length: Option<Seq<char>> },
    Listing(Option<Seq<GitTreeEntryView>>),
    Problem(Option<GitHubErrorView>),
    Content(Option<FileContentView>),
    Resumed,
}

/// An action, as its characters.
pub enum ActionView {
    Send(RequestView),
    ReadListing,
    ReadProblem,
    ReadContent,
    Pause { millis: u64, cause: Cause },
}

/// A run, as plain values: what `spec_step` works on.
pub struct FetchRunView {
    pub coordinate: RepositoryCoordinateView,
    pub token: Seq<char>,
    pub phase: Phase,
    pub queue: Seq<Seq<char>>,
    pub position: nat,
    pub files: Seq<FetchedFileView>,
}

/// A step, as plain values.
pub enum StepView {
    Next { run: FetchRunView, action: ActionView },
    Finished(Result<Seq<FetchedFileView>, FetchErrorView>),
}

impl View for Event {
    type V = EventView;

    open spec fn view(&self) -> EventView {
        match self {
            Event::Failed => EventView::Failed,
            Event::Head { status, remaining, length } => EventView::Head {
                status: *status,
                remaining: remaining.deep_view(),
                length: length.deep_view(),
            },
            Event::Listing(listing) => EventView::Listing(listing.deep_view()),
            Event::Problem(problem) => EventView::Problem(problem.deep_view()),
            Event::Content(payload) => EventView::Content(payload.deep_view()),
            Event::Resumed => EventView::Resumed,
        }
    }
}

impl View for Action {
    type V = ActionView;

    open spec fn view(&self) -> ActionView {
        match self {
            Action::Send(request) => ActionView::Send(request@),
            Action::ReadListing => ActionView::ReadListing,
            Action::ReadProblem => ActionView::ReadProblem,
            Action::ReadContent => ActionView::ReadContent,
            Action::Pause { millis, cause } => ActionView::Pause { millis: *millis, cause: *cause },
        }
    }
}

impl View for FetchRun {
    type V = FetchRunView;

    closed spec fn view(&self) -> FetchRunView {
        FetchRunView {
            coordinate: self.coordinate@,
            token: self.token@,
            phase: self.phase,
            queue: self.queue.deep_view(),
            position: self.position as nat,
            files: self.files.deep_view(),
        }
    }
}

impl View for Step {
    type V = StepView;

    open spec fn view(&self) -> StepView {
        match self {
            Step::Next { run, action } => StepView::Next { run: run@, action: action@ },
            Step::Finished(Ok(files)) => StepView::Finished(Ok(files.deep_view())),
            Step::Finished(Err(error)) => StepView::Finished(Err(error@)),
        }
    }
}

/// How long a pause for `cause` lasts.
pub open spec fn pause_millis(cause: Cause) -> u64 {
    match cause {
        Cause::RateLimited => BACKOFF_MILLIS,
        _ => PACING_MILLIS,
    }
}

/// The pause for `cause`.
pub open spec fn pause_for(cause: Cause) -> ActionView {
    ActionView::Pause { millis: pause_millis(cause), cause }
}

impl FetchRunView {
    /// The run before anything has happened: it waits for the response to
    /// the tree-listing request.
    pub open spec fn initial(coordinate: RepositoryCoordinateView, token: Seq<char>) -> FetchRunView {
        FetchRunView {
            coordinate,
            token,
            phase: Phase::AwaitTreeHead,
            queue: Seq::empty(),
            position: 0,
            files: Seq::empty(),
        }
    }

    /// The run has a current file wherever it needs one, and has no files
    /// before there is a listing.
    pub open spec fn wf(self) -> bool {
        &&& self.position <= self.queue.len()
        &&& match self.phase {
            Phase::AwaitTreeHead | Phase::AwaitListing | Phase::AwaitProblem { .. } => {
                self.queue.len() == 0 && self.files.len() == 0
            },
            Phase::AwaitContentHead | Phase::AwaitContent | Phase::Pausing(Cause::RateLimited) => {
                self.position < self.queue.len()
            },
            Phase::Pausing(_) => true,
        }
    }

    /// The request for the file at `position`.
    pub open spec fn current_request(self) -> RequestView {
        content_request(self.coordinate, self.token, self.queue[self.position as int])
    }

    /// The action that the run is waiting on.
    pub open spec fn pending(self) -> ActionView {
        match self.phase {
            Phase::AwaitTreeHead => ActionView::Send(tree_request(self.coordinate, self.token)),
            Phase::AwaitListing => ActionView::ReadListing,
            Phase::AwaitProblem { .. } => ActionView::ReadProblem,
            Phase::AwaitContentHead => ActionView::Send(self.current_request()),
            Phase::AwaitContent => ActionView::ReadContent,
            Phase::Pausing(cause) => pause_for(cause),
        }
    }

    /// The run in another phase.
    pub open spec fn at(self, phase: Phase) -> FetchRunView {
        FetchRunView { phase, ..self }
    }

    /// An event that does not answer the pending action changes nothing:
    /// the run asks for the same action again.
    pub open spec fn stay(self) -> StepView {
        StepView::Next { run: self, action: self.pending() }
    }

    /// The run pauses for `cause`.
    pub open spec fn pause(self, cause: Cause) -> StepView {
        StepView::Next { run: self.at(Phase::Pausing(cause)), action: pause_for(cause) }
    }

    /// The file at `position` is dealt with: the run moves past it and
    /// pauses.
    pub open spec fn settle(self, verdict: Result<FetchedFileView, FetchSkip>) -> StepView {
        let moved = FetchRunView { position: self.position + 1, ..self };
        match verdict {
            Ok(file) => FetchRunView { files: self.files.push(file), ..moved }.pause(
                Cause::Fetched,
            ),
            Err(reason) => moved.pause(Cause::Skipped(reason)),
        }
    }

    /// The run asks for the file at `position`, or ends with its files
    /// where none is left.
    pub open spec fn fetch_or_finish(self) -> StepView {
        if self.position < self.queue.len() {
            StepView::Next {
                run: self.at(Phase::AwaitContentHead),
                action: ActionView::Send(self.current_request()),
            }
        } else {
            StepView::Finished(Ok(self.files))
        }
    }
}

/// What a run does on an event.
pub open spec fn spec_step(run: FetchRunView, event: EventView) -> StepView {
    match run.phase {
        Phase::AwaitTreeHead => match event {
            EventView::Failed => StepView::Finished(Err(FetchErrorView::Transport)),
            EventView::Head { status, .. } => if is_success(status) {
                StepView::Next { run: run.at(Phase::AwaitListing), action: ActionView::ReadListing }
            } else {
                StepView::Next {
                    run: run.at(Phase::AwaitProblem { status }),
                    action: ActionView::ReadProblem,
                }
            },
            _ => run.stay(),
        },
        Phase::AwaitListing => match event {
            EventView::Listing(Some(tree)) => FetchRunView {
                queue: eligible_paths(tree),
                position: 0,
                ..run
            }.fetch_or_finish(),
            EventView::Listing(None) | EventView::Failed => StepView::Finished(
                Err(FetchErrorView::MalformedListing),
            ),
            _ => run.stay(),
        },
        Phase::AwaitProblem { status } => match event {
            EventView::Problem(problem) => StepView::Finished(Err(tree_failure(status, problem))),
            EventView::Failed => StepView::Finished(Err(tree_failure(status, None))),
            _ => run.stay(),
        },
        Phase::AwaitContentHead => match event {
            EventView::Failed => run.settle(Err(FetchSkip::TransientError)),
            EventView::Head { status, remaining, length } => match head_verdict(
                status,
                remaining,
                length,
            ) {
                HeadVerdict::BackOff => run.pause(Cause::RateLimited),
                HeadVerdict::Skip(reason) => run.settle(Err(reason)),
                HeadVerdict::ReadBody => StepView::Next {
                    run: run.at(Phase::AwaitContent),
                    action: ActionView::ReadContent,
                },
            },
            _ => run.stay(),
        },
        Phase::AwaitContent => match event {
            EventView::Failed => run.settle(Err(FetchSkip::DecodeFailed)),
            EventView::Content(payload) => run.settle(
                payload_verdict(run.queue[run.position as int], payload),
            ),
            _ => run.stay(),
        },
        Phase::Pausing(cause) => match event {
            EventView::Resumed => run.fetch_or_finish(),
            _ => run.stay(),
        },
    }
}

impl FetchRun {
    #[verifier::type_invariant]
    spec fn well_formed(self) -> bool {
        self@.wf()
    }

    /// Begins a run for the repository at `coordinate`: the first action
    /// is the tree-listing request.
    pub fn start(config: &Config, coordinate: RepositoryCoordinate) -> (begun: (FetchRun, Action))
        ensures
            begun.0@ == FetchRunView::initial(coordinate@, config@),
            begun.1@ == begun.0@.pending(),
    {
        let action = Action::Send(make_tree_request(&coordinate, config.github_token.as_str()));
        let run = FetchRun {
            coordinate,
            token: config.github_token.clone(),
            phase: Phase::AwaitTreeHead,
            queue: Vec::new(),
            position: 0,
            files: Vec::new(),
        };
        assert(run.queue.deep_view() =~= Seq::<Seq<char>>::empty());
        assert(run.files.deep_view() =~= Seq::<FetchedFileView>::empty());
        (run, action)
    }

    /// How many files the run is to fetch in all.
    pub fn total(&self) -> (total: usize)
        ensures
            total == self@.queue.len(),
    {
        self.queue.len()
    }

    /// How many files the run has dealt with.
    pub fn position(&self) -> (position: usize)
        ensures
            position == self@.position,
    {
        self.position
    }

    /// The path of the file that the run is to fetch next, where one is
    /// left.
    pub fn current_path(&self) -> (path: Option<&str>)
        ensures
            match path {
                Some(text) => self@.position < self@.queue.len() && text@ == self@.queue[self@.position
                    as int],
                None => self@.position >= self@.queue.len(),
            },
    {
        if self.position < self.queue.len() {
            Some(self.queue[self.position].as_str())
        } else {
            None
        }
    }

    /// The request for the file at `position`.
    fn request_current(&self) -> (request: Request)
        requires
            self@.position < self@.queue.len(),
        ensures
            request@ == self@.current_request(),
    {
        make_content_request(
            &self.coordinate,
            self.token.as_str(),
            self.queue[self.position].as_str(),
        )
    }

    /// The action that the run is waiting on.
    pub fn pending(&self) -> (action: Action)
        ensures
            action@ == self@.pending(),
    {
        proof {
            use_type_invariant(self);
        }
        match self.phase {
            Phase::AwaitTreeHead => Action::Send(
                make_tree_request(&self.coordinate, self.token.as_str()),
            ),
            Phase::AwaitListing => Action::ReadListing,
            Phase::AwaitProblem { .. } => Action::ReadProblem,
            Phase::AwaitContentHead => Action::Send(self.request_current()),
            Phase::AwaitContent => Action::ReadContent,
            Phase::Pausing(cause) => pause_action(cause),
        }
    }

    fn stay(self) -> (step: Step)
        ensures
            step@ == self@.stay(),
    {
        let action = self.pending();
        Step::Next { run: self, action }
    }

    fn pause(self, cause: Cause) -> (step: Step)
        requires
            self@.at(Phase::Pausing(cause)).wf(),
        ensures
            step@ == self@.pause(cause),
    {
        let FetchRun { coordinate, token, queue, position, files, .. } = self;
        Step::Next {
            run: FetchRun { coordinate, token, phase: Phase::Pausing(cause), queue, position, files },
            action: pause_action(cause),
        }
    }

    fn settle(self, verdict: Result<FetchedFile, FetchSkip>) -> (step: Step)
        requires
            self@.position < self@.queue.len(),
        ensures
            step@ == self@.settle(
                match verdict {
                    Ok(file) => Ok(file@),
                    Err(reason) => Err(reason),
                },
            ),
    {
        assert(self.position < self.queue.len()) by {
            assert(self@.queue.len() == self.queue.len());
        }
        let FetchRun { coordinate, token, queue, position, files, .. } = self;
        let mut files = files;
        let cause = match verdict {
            Ok(file) => {
                let ghost before = files.deep_view();
                let ghost added = file@;
                files.push(file);
                assert(files.deep_view() =~= before.push(added));
                Cause::Fetched
            },
            Err(reason) => Cause::Skipped(reason),
        };
        Step::Next {
            run: FetchRun {
                coordinate,
                token,
                phase: Phase::Pausing(cause),
                queue,
                position: position + 1,
                files,
            },
            action: pause_action(cause),
        }
    }

    fn fetch_or_finish(self) -> (step: Step)
        ensures
            step@ == self@.fetch_or_finish(),
    {
        proof {
            use_type_invariant(&self);
        }
        let FetchRun { coordinate, token, queue, position, files, .. } = self;
        proceed(coordinate, token, queue, position, files)
    }

    /// Takes the run one step on: `event` is what came of the action that
    /// the run asked for last.
    pub fn step(self, event: Event) -> (step: Step)
        ensures
            step@ == spec_step(self@, event@),
            step matches Step::Next { run, .. } ==> run@.wf(),
    {
        proof {
            use_type_invariant(&self);
        }
        match self.phase {
            Phase::AwaitTreeHead => match event {
                Event::Failed => Step::Finished(Err(FetchError::Transport)),
                Event::Head { status, .. } => {
                    let phase = if status_is_success(status) {
                        Phase::AwaitListing
                    } else {
                        Phase::AwaitProblem { status }
                    };
                    let action = if status_is_success(status) {
                        Action::ReadListing
                    } else {
                        Action::ReadProblem
                    };
                    let FetchRun { coordinate, token, queue, position, files, .. } = self;
                    Step::Next {
                        run: FetchRun { coordinate, token, phase, queue, position, files },
                        action,
                    }
                },
                _ => self.stay(),
            },
            Phase::AwaitListing => match event {
                Event::Listing(Some(listing)) => {
                    let FetchRun { coordinate, token, files, .. } = self;
                    proceed(coordinate, token, select_paths(&listing), 0, files)
                },
                Event::Listing(None) => Step::Finished(Err(FetchError::MalformedListing)),
                Event::Failed => Step::Finished(Err(FetchError::MalformedListing)),
                _ => self.stay(),
            },
            Phase::AwaitProblem { status } => match event {
                Event::Problem(problem) => Step::Finished(Err(make_tree_failure(status, problem))),
                Event::Failed => Step::Finished(Err(make_tree_failure(status, None))),
                _ => self.stay(),
            },
            Phase::AwaitContentHead => match event {
                Event::Failed => self.settle(Err(FetchSkip::TransientError)),
                Event::Head { status, remaining, length } => match judge_head(
                    status,
                    &remaining,
                    &length,
                ) {
                    HeadVerdict::BackOff => self.pause(Cause::RateLimited),
                    HeadVerdict::Skip(reason) => self.settle(Err(reason)),
                    HeadVerdict::ReadBody => {
                        let FetchRun { coordinate, token, queue, position, files, .. } = self;
                        Step::Next {
                            run: FetchRun {
                                coordinate,
                                token,
                                phase: Phase::AwaitContent,
                                queue,
                                position,
                                files,
                            },
                            action: Action::ReadContent,
                        }
                    },
                },
                _ => self.stay(),
            },
            Phase::AwaitContent => match event {
                Event::Failed => self.settle(Err(FetchSkip::DecodeFailed)),
                Event::Content(payload) => {
                    let verdict = judge_payload(self.queue[self.position].as_str(), payload);
                    self.settle(verdict)
                },
                _ => self.stay(),
            },
            Phase::Pausing(_) => match event {
                Event::Resumed => self.fetch_or_finish(),
                _ => self.stay(),
            },
        }
    }
}

/// Asks for the file at `position`, or ends the run with its files where
/// none is left.
fn proceed(
    coordinate: RepositoryCoordinate,
    token: String,
    queue: Vec<String>,
    position: usize,
    files: Vec<FetchedFile>,
) -> (step: Step)
    requires
        position <= queue.len(),
    ensures
        step@ == (FetchRunView {
            coordinate: coordinate@,
            token: token@,
            phase: Phase::AwaitContentHead,
            queue: queue.deep_view(),
            position: position as nat,
            files: files.deep_view(),
        }).fetch_or_finish(),
{
    if position < queue.len() {
        let request = make_content_request(&coordinate, token.as_str(), queue[position].as_str());
        Step::Next {
            run: FetchRun {
                coordinate,
                token,
                phase: Phase::AwaitContentHead,
                queue,
                position,
                files,
            },
            action: Action::Send(request),
        }
    } else {
        Step::Finished(Ok(files))
    }
}

/// The pause for `cause`.
fn pause_action(cause: Cause) -> (action: Action)
    ensures
        action@ == pause_for(cause),
{
    match cause {
        Cause::RateLimited => Action::Pause { millis: BACKOFF_MILLIS, cause },
        _ => Action::Pause { millis: PACING_MILLIS, cause },
    }
}

} // verus!
