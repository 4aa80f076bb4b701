//! The protocol of the root resolver as a state machine over plain text:
//! its states, what each state asks for, and what each report leads to.

use crate::paths::joined;
use vstd::prelude::*;

verus! {

/// The name of the root directory below the build directory.
pub open spec fn data_dir_name() -> Seq<char> {
    "test-data"@
}

/// A `RootError` as plain text.
pub enum RootErrorView {
    RootNotFound { candidates: Seq<Seq<char>> },
    RootIoError { path: Seq<char>, cause: Seq<char> },
}

/// A `RootState` as plain text.
pub enum RootStateView {
    Uninitialized,
    Locating { tried: Seq<Seq<char>>, current: Seq<char>, later: Seq<Seq<char>> },
    Checking { root: Seq<char> },
    Removing { root: Seq<char> },
    Creating { root: Seq<char> },
    Ready { root: Seq<char> },
    Failed { error: RootErrorView },
}

/// A `RootAction` as plain text.
pub enum RootActionView {
    Locate,
    ProbeDir { path: Seq<char> },
    FindEntry { path: Seq<char> },
    RemoveAll { path: Seq<char> },
    CreateDir { path: Seq<char> },
    Finished,
}

/// A `RootEvent` as plain text.
pub enum RootEventView {
    Candidates { paths: Seq<Seq<char>> },
    Probed { is_dir: bool },
    Found { exists: bool },
    Completed,
    IoFailed { cause: Seq<char> },
}

/// The root that belongs to the build directory `build_dir`.
pub open spec fn root_below(build_dir: Seq<char>) -> Seq<char> {
    joined(build_dir, data_dir_name())
}

/// What a state asks the driver to do.
pub open spec fn pending_action(state: RootStateView) -> RootActionView {
    match state {
        RootStateView::Uninitialized => RootActionView::Locate,
        RootStateView::Locating { current, .. } => RootActionView::ProbeDir { path: current },
        RootStateView::Checking { root } => RootActionView::FindEntry { path: root },
        RootStateView::Removing { root } => RootActionView::RemoveAll { path: root },
        RootStateView::Creating { root } => RootActionView::CreateDir { path: root },
        RootStateView::Ready { .. } => RootActionView::Finished,
        RootStateView::Failed { .. } => RootActionView::Finished,
    }
}

/// The path that a state is working on; empty where there is none yet.
pub open spec fn path_at_work(state: RootStateView) -> Seq<char> {
    match pending_action(state) {
        RootActionView::ProbeDir { path } => path,
        RootActionView::FindEntry { path } => path,
        RootActionView::RemoveAll { path } => path,
        RootActionView::CreateDir { path } => path,
        _ => Seq::empty(),
    }
}

/// The search for the build directory among `candidates` that were not tried
/// yet, after `tried` were: the first is tried next, and with none left the
/// search has failed.
pub open spec fn locate_among(tried: Seq<Seq<char>>, candidates: Seq<Seq<char>>) -> RootStateView {
    if candidates.len() == 0 {
        RootStateView::Failed { error: RootErrorView::RootNotFound { candidates: tried } }
    } else {
        RootStateView::Locating { tried, current: candidates[0], later: candidates.skip(1) }
    }
}

/// The state that follows `state` when the driver reports `event`.
///
/// A failure of the operating system ends initialisation in any state that
/// asks for work. Any other event that does not answer the pending action
/// leaves the state as it is. `Ready` and `Failed` are final.
pub open spec fn next_state(state: RootStateView, event: RootEventView) -> RootStateView {
    match (state, event) {
        (RootStateView::Ready { .. }, _) => state,
        (RootStateView::Failed { .. }, _) => state,
        (_, RootEventView::IoFailed { cause }) => RootStateView::Failed {
            error: RootErrorView::RootIoError { path: path_at_work(state), cause },
        },
        (RootStateView::Uninitialized, RootEventView::Candidates { paths }) => locate_among(
            Seq::empty(),
            paths,
        ),
        (RootStateView::Locating { current, .. }, RootEventView::Probed { is_dir: true }) => {
            RootStateView::Checking { root: root_below(current) }
        },
        (
            RootStateView::Locating { tried, current, later },
            RootEventView::Probed { is_dir: false },
        ) => locate_among(tried.push(current), later),
        (RootStateView::Checking { root }, RootEventView::Found { exists: true }) => {
            RootStateView::Removing { root }
        },
        (RootStateView::Checking { root }, RootEventView::Found { exists: false }) => {
            RootStateView::Creating { root }
        },
        (RootStateView::Removing { root }, RootEventView::Completed) => RootStateView::Creating {
            root,
        },
        (RootStateView::Creating { root }, RootEventView::Completed) => RootStateView::Ready {
            root,
        },
        _ => state,
    }
}

/// The state that the resolver is in after the driver has reported `events`,
/// one after the other, to a resolver that started uninitialised.
pub open spec fn run(events: Seq<RootEventView>) -> RootStateView
    decreases events.len(),
{
    if events.len() == 0 {
        RootStateView::Uninitialized
    } else {
        next_state(run(events.drop_last()), events.last())
    }
}

/// The report that nothing stands at `root`, or that what stood there was
/// removed, reaches a resolver in `state` that waits for just that.
pub open spec fn cleared(state: RootStateView, event: RootEventView, root: Seq<char>) -> bool {
    ||| state == (RootStateView::Checking { root }) && event == (RootEventView::Found {
        exists: false,
    })
    ||| state == (RootStateView::Removing { root }) && event == RootEventView::Completed
}

/// The report that `root` was created reaches a resolver that waits for it.
pub open spec fn created(state: RootStateView, event: RootEventView, root: Seq<char>) -> bool {
    state == (RootStateView::Creating { root }) && event == RootEventView::Completed
}

/// In the run `events` the root was cleared by report number `j`: nothing
/// was found there, or what was there was removed.
pub open spec fn cleared_at(events: Seq<RootEventView>, root: Seq<char>, j: int) -> bool {
    0 <= j < events.len() && cleared(run(events.take(j)), events[j], root)
}

/// In the run `events` the root was created by report number `i`.
pub open spec fn created_at(events: Seq<RootEventView>, root: Seq<char>, i: int) -> bool {
    0 <= i < events.len() && created(run(events.take(i)), events[i], root)
}

/// In the run `events` the root was reset: it was cleared, and created after
/// that.
pub open spec fn was_reset(events: Seq<RootEventView>, root: Seq<char>) -> bool {
    exists|j: int, i: int| j < i && cleared_at(events, root, j) && created_at(events, root, i)
}

/// The lines that name the candidates of a failed search, one for each.
pub open spec fn candidate_lines(candidates: Seq<Seq<char>>) -> Seq<char>
    decreases candidates.len(),
{
    if candidates.len() == 0 {
        Seq::empty()
    } else {
        candidate_lines(candidates.drop_last()) + "\ncandidate: "@ + candidates.last()
    }
}

/// What a failed initialisation is reported with: every candidate that was
/// tried, or the path that was worked on and the cause.
pub open spec fn root_error_text(error: RootErrorView) -> Seq<char> {
    match error {
        RootErrorView::RootNotFound { candidates } => "Cargo 'target/' directory not found."@
            + candidate_lines(candidates),
        RootErrorView::RootIoError { path, cause } => "I/O error at \""@ + path + "\": "@ + cause,
    }
}

} // verus!
