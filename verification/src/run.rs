use vstd::prelude::*;

use crate::error::Error;
use crate::error::ErrorView;
use crate::torrents::done_view;
use crate::torrents::listing_view;
use crate::torrents::session_view;
use crate::torrents::TorrentFile;
use crate::torrents::TorrentFileView;

verus! {

/// Where a run stands.
#[derive(Debug, PartialEq, Eq)]
pub enum Phase {
    /// Nothing has been asked yet.
    Idle,
    /// The login is under way.
    Authenticating,
    /// The file listing is under way, within the session `sid`.
    Listing { sid: String },
    /// The history write and the delete are under way side by side. `recording` and `deleting`
    /// say which of the two is still awaited, `failure` holds the first error that came back.
    Completing { recording: bool, deleting: bool, failure: Option<Error> },
    /// Both the history write and the delete went through.
    Done,
    /// The run ended on an error.
    Failed,
}

/// The mathematical value of a [`Phase`].
pub enum PhaseView {
    Idle,
    Authenticating,
    Listing { sid: Seq<char> },
    Completing { recording: bool, deleting: bool, failure: Option<ErrorView> },
    Done,
    Failed,
}

impl View for Phase {
    type V = PhaseView;

    open spec fn view(&self) -> PhaseView {
        match *self {
            Phase::Idle => PhaseView::Idle,
            Phase::Authenticating => PhaseView::Authenticating,
            Phase::Listing { sid } => PhaseView::Listing { sid: sid@ },
            Phase::Completing { recording, deleting, failure } => PhaseView::Completing {
                recording,
                deleting,
                failure: failure.deep_view(),
            },
            Phase::Done => PhaseView::Done,
            Phase::Failed => PhaseView::Failed,
        }
    }
}

/// One removal of one torrent: the torrent's hash and how far the removal has come.
#[derive(Debug, PartialEq, Eq)]
pub struct Run {
    hash: String,
    phase: Phase,
}

/// The mathematical value of a [`Run`].
pub struct RunView {
    pub hash: Seq<char>,
    pub phase: PhaseView,
}

impl View for Run {
    type V = RunView;

    closed spec fn view(&self) -> RunView {
        RunView { hash: self.hash@, phase: self.phase@ }
    }
}

/// What happened outside since the last step.
#[derive(Debug, PartialEq, Eq)]
pub enum Event {
    /// The run is asked to begin.
    Start,
    /// The login came back, with a session or an error.
    LoggedIn(Result<String, Error>),
    /// The listing came back, with the classified files or an error.
    Listed(Result<Vec<TorrentFile>, Error>),
    /// The history write came back.
    Recorded(Result<(), Error>),
    /// The delete came back.
    Deleted(Result<(), Error>),
}

/// The mathematical value of an [`Event`].
pub enum EventView {
    Start,
    LoggedIn(Result<Seq<char>, ErrorView>),
    Listed(Result<Seq<TorrentFileView>, ErrorView>),
    Recorded(Result<(), ErrorView>),
    Deleted(Result<(), ErrorView>),
}

impl View for Event {
    type V = EventView;

    open spec fn view(&self) -> EventView {
        match *self {
            Event::Start => EventView::Start,
            Event::LoggedIn(session) => EventView::LoggedIn(session_view(session)),
            Event::Listed(listing) => EventView::Listed(listing_view(listing)),
            Event::Recorded(outcome) => EventView::Recorded(done_view(outcome)),
            Event::Deleted(outcome) => EventView::Deleted(done_view(outcome)),
        }
    }
}

/// What the caller is to do next.
#[derive(Debug, PartialEq, Eq)]
pub enum Action {
    /// Log in, and hand back `Event::LoggedIn`.
    Login,
    /// List the files of the torrent within the session, and hand back `Event::Listed`.
    ListFiles { sid: String, hash: String },
    /// Write the history for `files` and delete the torrent within the session, side by side;
    /// let both come to their end, and hand back `Event::Recorded` and `Event::Deleted`, each
    /// as it comes.
    Complete { files: Vec<TorrentFile>, sid: String, hash: String, delete_files: bool },
    /// Nothing new: one of the two side-by-side operations is still awaited.
    Wait,
    /// The run is over, with this result.
    Finish(Result<(), Error>),
    /// The event does not belong to the phase the run is in. The run has not moved.
    Ignore,
}

/// The mathematical value of an [`Action`].
pub enum ActionView {
    Login,
    ListFiles { sid: Seq<char>, hash: Seq<char> },
    Complete { files: Seq<TorrentFileView>, sid: Seq<char>, hash: Seq<char>, delete_files: bool },
    Wait,
    Finish(Result<(), ErrorView>),
    Ignore,
}

impl View for Action {
    type V = ActionView;

    open spec fn view(&self) -> ActionView {
        match *self {
            Action::Login => ActionView::Login,
            Action::ListFiles { sid, hash } => ActionView::ListFiles { sid: sid@, hash: hash@ },
            Action::Complete { files, sid, hash, delete_files } => ActionView::Complete {
                files: files.deep_view(),
                sid: sid@,
                hash: hash@,
                delete_files,
            },
            Action::Wait => ActionView::Wait,
            Action::Finish(outcome) => ActionView::Finish(done_view(outcome)),
            Action::Ignore => ActionView::Ignore,
        }
    }
}

/// The first error of the side-by-side operations: the one already held, else the one that
/// the outcome brings.
pub open spec fn first_failure(held: Option<ErrorView>, outcome: Result<(), ErrorView>) -> Option<
    ErrorView,
> {
    match held {
        Some(error) => Some(error),
        None => match outcome {
            Err(error) => Some(error),
            Ok(()) => None,
        },
    }
}

/// Where the run stands once one of the side-by-side operations has come back: it waits while
/// the other is out, and ends when both are in, on the first error if there was one.
pub open spec fn settled(
    hash: Seq<char>,
    recording: bool,
    deleting: bool,
    failure: Option<ErrorView>,
) -> (RunView, ActionView) {
    if recording || deleting {
        (
            RunView { hash, phase: PhaseView::Completing { recording, deleting, failure } },
            ActionView::Wait,
        )
    } else {
        match failure {
            None => (RunView { hash, phase: PhaseView::Done }, ActionView::Finish(Ok(()))),
            Some(error) => (
                RunView { hash, phase: PhaseView::Failed },
                ActionView::Finish(Err(error)),
            ),
        }
    }
}

/// The run's next state and the caller's next action, for a run in a given state and an event.
///
/// Login and listing follow each other, and an error in either ends the run at once. A listing
/// that came back starts the history write and the delete together, the delete leaving the
/// files on disk. The run then ends when both have come back. An event that does not belong to
/// the phase changes nothing.
pub open spec fn next_step(run: RunView, event: EventView) -> (RunView, ActionView) {
    let hash = run.hash;
    match (run.phase, event) {
        (PhaseView::Idle, EventView::Start) => (
            RunView { hash, phase: PhaseView::Authenticating },
            ActionView::Login,
        ),
        (PhaseView::Authenticating, EventView::LoggedIn(Ok(sid))) => (
            RunView { hash, phase: PhaseView::Listing { sid } },
            ActionView::ListFiles { sid, hash },
        ),
        (PhaseView::Authenticating, EventView::LoggedIn(Err(error))) => (
            RunView { hash, phase: PhaseView::Failed },
            ActionView::Finish(Err(error)),
        ),
        (PhaseView::Listing { sid }, EventView::Listed(Ok(files))) => (
            RunView {
                hash,
                phase: PhaseView::Completing { recording: true, deleting: true, failure: None },
            },
            ActionView::Complete { files, sid, hash, delete_files: false },
        ),
        (PhaseView::Listing { .. }, EventView::Listed(Err(error))) => (
            RunView { hash, phase: PhaseView::Failed },
            ActionView::Finish(Err(error)),
        ),
        (
            PhaseView::Completing { recording: true, deleting, failure },
            EventView::Recorded(outcome),
        ) => settled(hash, false, deleting, first_failure(failure, outcome)),
        (
            PhaseView::Completing { recording, deleting: true, failure },
            EventView::Deleted(outcome),
        ) => settled(hash, recording, false, first_failure(failure, outcome)),
        _ => (run, ActionView::Ignore),
    }
}

/// The state of a run after a sequence of events, each answered by one step.
pub open spec fn run_after(run: RunView, events: Seq<EventView>) -> RunView
    decreases events.len(),
{
    if events.len() == 0 {
        run
    } else {
        next_step(run_after(run, events.drop_last()), events.last()).0
    }
}

/// The action that answers the last of a sequence of events.
pub open spec fn action_after(run: RunView, events: Seq<EventView>) -> ActionView
    recommends
        events.len() > 0,
{
    next_step(run_after(run, events.drop_last()), events.last()).1
}

impl Run {
    /// A run for the torrent with the given hash, with nothing asked yet.
    pub fn new(hash: String) -> (run: Run)
        ensures
            run@ == (RunView { hash: hash@, phase: PhaseView::Idle }),
    {
        Run { hash, phase: Phase::Idle }
    }

    /// The hash of the torrent that the run removes.
    pub fn hash(&self) -> (hash: &String)
        ensures
            hash@ == self@.hash,
    {
        &self.hash
    }

    /// Where the run stands.
    pub fn phase(&self) -> (phase: &Phase)
        ensures
            phase@ == self@.phase,
    {
        &self.phase
    }

    /// Whether the run is over, in success or in failure.
    pub fn is_over(&self) -> (over: bool)
        ensures
            over == (self@.phase is Done || self@.phase is Failed),
    {
        match self.phase {
            Phase::Done | Phase::Failed => true,
            _ => false,
        }
    }

}

/// Keeps the first error of the side-by-side operations.
fn keep_first(held: Option<Error>, outcome: Result<(), Error>) -> (failure: Option<Error>)
    ensures
        failure.deep_view() == first_failure(held.deep_view(), done_view(outcome)),
{
    match held {
        Some(error) => Some(error),
        None => match outcome {
            Err(error) => Some(error),
            Ok(()) => None,
        },
    }
}

/// Waits while one of the side-by-side operations is out, and ends the run when both are in.
fn settle(hash: String, recording: bool, deleting: bool, failure: Option<Error>) -> (next: (
    Run,
    Action,
))
    ensures
        (next.0@, next.1@) == settled(hash@, recording, deleting, failure.deep_view()),
{
    if recording || deleting {
        (Run { hash, phase: Phase::Completing { recording, deleting, failure } }, Action::Wait)
    } else {
        match failure {
            None => (Run { hash, phase: Phase::Done }, Action::Finish(Ok(()))),
            Some(error) => (Run { hash, phase: Phase::Failed }, Action::Finish(Err(error))),
        }
    }
}

/// One step of a run: takes how the run stands and what happened, and gives how the run stands
/// now and what is to be done next. The caller does what the action says and comes back with
/// the event that it names, until the action is `Finish`.
pub fn execute(run: Run, event: Event) -> (next: (Run, Action))
    ensures
        (next.0@, next.1@) == next_step(run@, event@),
{
    let Run { hash, phase } = run;
    match (phase, event) {
        (Phase::Idle, Event::Start) => (Run { hash, phase: Phase::Authenticating }, Action::Login),
        (Phase::Authenticating, Event::LoggedIn(Ok(sid))) => {
            let action = Action::ListFiles { sid: sid.clone(), hash: hash.clone() };
            (Run { hash, phase: Phase::Listing { sid } }, action)
        },
        (Phase::Authenticating, Event::LoggedIn(Err(error))) => (
            Run { hash, phase: Phase::Failed },
            Action::Finish(Err(error)),
        ),
        (Phase::Listing { sid }, Event::Listed(Ok(files))) => {
            let action = Action::Complete { files, sid, hash: hash.clone(), delete_files: false };
            (
                Run {
                    hash,
                    phase: Phase::Completing { recording: true, deleting: true, failure: None },
                },
                action,
            )
        },
        (Phase::Listing { sid }, Event::Listed(Err(error))) => (
            Run { hash, phase: Phase::Failed },
            Action::Finish(Err(error)),
        ),
        (Phase::Completing { recording: true, deleting, failure }, Event::Recorded(outcome)) => {
            settle(hash, false, deleting, keep_first(failure, outcome))
        },
        (Phase::Completing { recording, deleting: true, failure }, Event::Deleted(outcome)) => {
            settle(hash, recording, false, keep_first(failure, outcome))
        },
        (phase, _) => (Run { hash, phase }, Action::Ignore),
    }
}

/// The delete is asked for in answer to a listing that came back, and to nothing else. It is
/// then asked for together with the history write, for the run's torrent, within the session
/// of the listing, and leaves the files on disk.
pub proof fn delete_follows_listing(run: RunView, event: EventView)
    ensures
        next_step(run, event).1 is Complete <==> run.phase is Listing && event matches EventView::Listed(
            Ok(_),
        ),
        match next_step(run, event).1 {
            ActionView::Complete { files, sid, hash, delete_files } => {
                &&& run.phase == PhaseView::Listing { sid }
                &&& event == EventView::Listed(Ok(files))
                &&& hash == run.hash
                &&& !delete_files
            },
            _ => true,
        },
{
}

/// A run that is over stays as it is: whatever events follow, each is ignored.
pub proof fn over_stays_over(run: RunView, events: Seq<EventView>)
    requires
        run.phase is Done || run.phase is Failed,
    ensures
        run_after(run, events) == run,
        events.len() > 0 ==> action_after(run, events) is Ignore,
    decreases events.len(),
{
    if events.len() > 0 {
        over_stays_over(run, events.drop_last());
    }
}

/// An error of the login or of the listing ends the run at once, with that error: the delete
/// is not asked for then, nor after any event that may still follow.
pub proof fn early_failure_ends_the_run(run: RunView, error: ErrorView, later: Seq<EventView>)
    requires
        run.phase is Authenticating || run.phase is Listing,
    ensures
        ({
            let event = if run.phase is Authenticating {
                EventView::LoggedIn(Err(error))
            } else {
                EventView::Listed(Err(error))
            };
            let (failed, action) = next_step(run, event);
            &&& action == ActionView::Finish(Err(error))
            &&& failed.phase is Failed
            &&& run_after(failed, later).phase is Failed
            &&& later.len() > 0 ==> action_after(failed, later) is Ignore
        }),
{
    let event = if run.phase is Authenticating {
        EventView::LoggedIn(Err(error))
    } else {
        EventView::Listed(Err(error))
    };
    over_stays_over(next_step(run, event).0, later);
}

/// The result of a run whose history write and delete came back with the given outcomes, the
/// first of them having come back first.
pub open spec fn joined(first: Result<(), ErrorView>, second: Result<(), ErrorView>) -> Result<
    (),
    ErrorView,
> {
    match (first, second) {
        (Err(error), _) => Err(error),
        (Ok(_), Err(error)) => Err(error),
        (Ok(_), Ok(_)) => Ok(()),
    }
}

/// The history write and the delete are both awaited, in whichever order they come back: the
/// first to come back never ends the run, the second always does. The run succeeds exactly
/// when both succeeded, and else gives the error that came back first.
pub proof fn both_outcomes_are_awaited(
    run: RunView,
    recorded: Result<(), ErrorView>,
    deleted: Result<(), ErrorView>,
)
    requires
        run.phase == (PhaseView::Completing { recording: true, deleting: true, failure: None }),
    ensures
        ({
            let (waiting, first) = next_step(run, EventView::Recorded(recorded));
            let (over, last) = next_step(waiting, EventView::Deleted(deleted));
            &&& first is Wait
            &&& last == ActionView::Finish(joined(recorded, deleted))
            &&& over.phase is Done <==> recorded is Ok && deleted is Ok
            &&& over.phase is Failed <==> recorded is Err || deleted is Err
        }),
        ({
            let (waiting, first) = next_step(run, EventView::Deleted(deleted));
            let (over, last) = next_step(waiting, EventView::Recorded(recorded));
            &&& first is Wait
            &&& last == ActionView::Finish(joined(deleted, recorded))
            &&& over.phase is Done <==> recorded is Ok && deleted is Ok
            &&& over.phase is Failed <==> recorded is Err || deleted is Err
        }),
{
}

} // verus!
