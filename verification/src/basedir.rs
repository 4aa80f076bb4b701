//! The root resolver: where the shared root of all test directories lies, and
//! how it is reset once before its first use.
//!
//! The resolver decides and does no filesystem work itself. Its state says
//! what is to be done next; whoever drives it does that and reports what
//! came of it.

use crate::lifecycle::lemma_ready_root_was_reset;
use crate::paths::path_join;
use crate::protocol::{
    candidate_lines, locate_among, next_state, pending_action, root_error_text, run, was_reset,
    RootActionView, RootErrorView, RootEventView, RootStateView,
};
use vstd::prelude::*;
use vstd::string::StringExecFns;

verus! {

/// Why the root could not be made ready.
#[derive(Clone, Debug, PartialEq, Eq)]
pub enum RootError {
    /// None of the candidates for the build directory is a directory.
    /// `candidates` holds every path that was tried, in the order of the
    /// trials.
    RootNotFound { candidates: Vec<String> },
    /// Locating, removing or creating failed with an error of the operating
    /// system. `path` is the path that was worked on, empty where the failure
    /// came before any path was known; `cause` is the error's text.
    RootIoError { path: String, cause: String },
}

impl View for RootError {
    type V = RootErrorView;

    open spec fn view(&self) -> RootErrorView {
        match self {
            RootError::RootNotFound { candidates } => RootErrorView::RootNotFound {
                candidates: candidates.deep_view(),
            },
            RootError::RootIoError { path, cause } => RootErrorView::RootIoError {
                path: path@,
                cause: cause@,
            },
        }
    }
}

impl RootError {
    /// The failure in words.
    pub fn message(&self) -> (text: String)
        ensures
            text@ == root_error_text(self@),
    {
        match self {
            RootError::RootNotFound { candidates } => {
                let mut text = "Cargo 'target/' directory not found.".to_owned();
                let ghost head = text@;
                let mut i: usize = 0;
                assert(candidates.deep_view().take(0) == Seq::<Seq<char>>::empty());
                assert(head + candidate_lines(Seq::empty()) == head);
                while i < candidates.len()
                    invariant
                        i <= candidates.len(),
                        head == "Cargo 'target/' directory not found."@,
                        text@ == head + candidate_lines(candidates.deep_view().take(i as int)),
                    decreases candidates.len() - i,
                {
                    let ghost seen = candidates.deep_view().take(i as int);
                    let ghost upto = candidates.deep_view().take(i as int + 1);
                    text.append("\ncandidate: ");
                    text.append(candidates[i].as_str());
                    assert(upto.drop_last() == seen);
                    assert(upto.last() == candidates[i as int]@);
                    assert(text@ == head + candidate_lines(upto));
                    i += 1;
                }
                assert(candidates.deep_view().take(candidates.len() as int)
                    == candidates.deep_view());
                text
            },
            RootError::RootIoError { path, cause } => {
                let mut text = "I/O error at \"".to_owned();
                text.append(path.as_str());
                text.append("\": ");
                text.append(cause.as_str());
                text
            },
        }
    }
}

/// Where the root stands in its lifecycle: not yet asked for, being
/// initialised (located, checked, removed, created), and then ready or failed
/// for good.
#[derive(Clone, Debug, PartialEq, Eq)]
pub enum RootPhase {
    /// Nobody has asked for the root yet.
    Uninitialized,
    /// The build directory is being looked for: `current` is being tried,
    /// `tried` were found not to be directories, `later` come next.
    Locating { tried: Vec<String>, current: String, later: Vec<String> },
    /// The build directory is known; does anything stand at `root`?
    Checking { root: String },
    /// Something stands at `root`, a directory of an earlier run or anything
    /// else, and is being removed.
    Removing { root: String },
    /// Nothing stands at `root`, and the directory is being created.
    Creating { root: String },
    /// `root` is ready for use.
    Ready { root: String },
    /// Initialisation failed; it is not tried again.
    Failed { error: RootError },
}

impl View for RootPhase {
    type V = RootStateView;

    open spec fn view(&self) -> RootStateView {
        match self {
            RootPhase::Uninitialized => RootStateView::Uninitialized,
            RootPhase::Locating { tried, current, later } => RootStateView::Locating {
                tried: tried.deep_view(),
                current: current@,
                later: later.deep_view(),
            },
            RootPhase::Checking { root } => RootStateView::Checking { root: root@ },
            RootPhase::Removing { root } => RootStateView::Removing { root: root@ },
            RootPhase::Creating { root } => RootStateView::Creating { root: root@ },
            RootPhase::Ready { root } => RootStateView::Ready { root: root@ },
            RootPhase::Failed { error } => RootStateView::Failed { error: error@ },
        }
    }
}

/// What the driver is asked to do in a state.
#[derive(Clone, Debug, PartialEq, Eq)]
pub enum RootAction {
    /// Work out the candidates for the build directory and report them.
    Locate,
    /// Report whether `path` is a directory.
    ProbeDir { path: String },
    /// Report whether anything stands at `path`: a directory, a file, or
    /// whatever else the filesystem holds under a name.
    FindEntry { path: String },
    /// Remove what stands at `path`: a directory with all that is in it, or
    /// the one file.
    RemoveAll { path: String },
    /// Create the one directory `path`; its parent exists.
    CreateDir { path: String },
    /// Nothing: the state is final.
    Finished,
}

impl View for RootAction {
    type V = RootActionView;

    open spec fn view(&self) -> RootActionView {
        match self {
            RootAction::Locate => RootActionView::Locate,
            RootAction::ProbeDir { path } => RootActionView::ProbeDir { path: path@ },
            RootAction::FindEntry { path } => RootActionView::FindEntry { path: path@ },
            RootAction::RemoveAll { path } => RootActionView::RemoveAll { path: path@ },
            RootAction::CreateDir { path } => RootActionView::CreateDir { path: path@ },
            RootAction::Finished => RootActionView::Finished,
        }
    }
}

/// What the driver reports back.
#[derive(Clone, Debug, PartialEq, Eq)]
pub enum RootEvent {
    /// The candidates for the build directory, nearest first.
    Candidates { paths: Vec<String> },
    /// Whether the path probed is a directory.
    Probed { is_dir: bool },
    /// Whether anything stands at the path looked at.
    Found { exists: bool },
    /// The removal or creation was carried out.
    Completed,
    /// The action failed with an error of the operating system.
    IoFailed { cause: String },
}

impl View for RootEvent {
    type V = RootEventView;

    open spec fn view(&self) -> RootEventView {
        match self {
            RootEvent::Candidates { paths } => RootEventView::Candidates {
                paths: paths.deep_view(),
            },
            RootEvent::Probed { is_dir } => RootEventView::Probed { is_dir: *is_dir },
            RootEvent::Found { exists } => RootEventView::Found { exists: *exists },
            RootEvent::Completed => RootEventView::Completed,
            RootEvent::IoFailed { cause } => RootEventView::IoFailed { cause: cause@ },
        }
    }
}

/// The root of a process: where it stands in its lifecycle, and by which
/// reports it got there.
///
/// A value of this type is made by `new` and `advance` alone, so every state
/// met in a program is one that the protocol leads to: in particular a root
/// that is ready was reset before.
pub struct RootState {
    phase: RootPhase,
    history: Ghost<Seq<RootEventView>>,
}

impl View for RootState {
    type V = RootStateView;

    closed spec fn view(&self) -> RootStateView {
        self.phase@
    }
}

/// The search among `candidates` after `tried` were tried: the first of them
/// is tried next, and with none left the search has failed.
fn locate(tried: Vec<String>, candidates: Vec<String>) -> (phase: RootPhase)
    ensures
        phase@ == locate_among(tried.deep_view(), candidates.deep_view()),
{
    let mut later = candidates;
    if later.len() == 0 {
        RootPhase::Failed { error: RootError::RootNotFound { candidates: tried } }
    } else {
        let ghost all = later.deep_view();
        let current = later.remove(0);
        assert(later.deep_view() == all.skip(1));
        assert(current@ == all[0]);
        RootPhase::Locating { tried, current, later }
    }
}

/// The phase that follows `phase` when the driver reports `event`.
fn next_phase(phase: RootPhase, event: RootEvent) -> (next: RootPhase)
    ensures
        next@ == next_state(phase@, event@),
{
    match (phase, event) {
        (RootPhase::Ready { root }, _) => RootPhase::Ready { root },
        (RootPhase::Failed { error }, _) => RootPhase::Failed { error },
        (RootPhase::Uninitialized, RootEvent::IoFailed { cause }) => RootPhase::Failed {
            error: RootError::RootIoError { path: String::new(), cause },
        },
        (RootPhase::Locating { current, .. }, RootEvent::IoFailed { cause }) => {
            RootPhase::Failed { error: RootError::RootIoError { path: current, cause } }
        },
        (RootPhase::Checking { root }, RootEvent::IoFailed { cause }) => RootPhase::Failed {
            error: RootError::RootIoError { path: root, cause },
        },
        (RootPhase::Removing { root }, RootEvent::IoFailed { cause }) => RootPhase::Failed {
            error: RootError::RootIoError { path: root, cause },
        },
        (RootPhase::Creating { root }, RootEvent::IoFailed { cause }) => RootPhase::Failed {
            error: RootError::RootIoError { path: root, cause },
        },
        (RootPhase::Uninitialized, RootEvent::Candidates { paths }) => {
            let tried: Vec<String> = Vec::new();
            assert(tried.deep_view() == Seq::<Seq<char>>::empty());
            locate(tried, paths)
        },
        (RootPhase::Locating { tried, current, later }, RootEvent::Probed { is_dir }) => {
            if is_dir {
                RootPhase::Checking { root: path_join(current.as_str(), "test-data") }
            } else {
                let ghost before = tried.deep_view();
                let mut tried = tried;
                tried.push(current);
                assert(tried.deep_view() == before.push(current@));
                locate(tried, later)
            }
        },
        (RootPhase::Checking { root }, RootEvent::Found { exists }) => {
            if exists {
                RootPhase::Removing { root }
            } else {
                RootPhase::Creating { root }
            }
        },
        (RootPhase::Removing { root }, RootEvent::Completed) => RootPhase::Creating { root },
        (RootPhase::Creating { root }, RootEvent::Completed) => RootPhase::Ready { root },
        (phase, _) => phase,
    }
}

impl RootState {
    /// The phase is the one that the reports so far lead to.
    #[verifier::type_invariant]
    spec fn follows_its_history(self) -> bool {
        self.phase@ == run(self.history@)
    }

    /// The reports that the driver has made so far, oldest first.
    pub closed spec fn history(&self) -> Seq<RootEventView> {
        self.history@
    }

    /// The state of a process in which nobody has asked for the root yet.
    pub fn new() -> (state: RootState)
        ensures
            state@ == RootStateView::Uninitialized,
            state.history() == Seq::<RootEventView>::empty(),
    {
        RootState { phase: RootPhase::Uninitialized, history: Ghost(Seq::empty()) }
    }

    /// Where the root stands, for inspection.
    pub fn phase(&self) -> (phase: &RootPhase)
        ensures
            phase@ == self@,
            self@ == run(self.history()),
    {
        proof {
            use_type_invariant(self);
        }
        &self.phase
    }

    /// Whether the root is ready for use.
    pub fn is_ready(&self) -> (ready: bool)
        ensures
            ready == (self@ is Ready),
    {
        match &self.phase {
            RootPhase::Ready { .. } => true,
            _ => false,
        }
    }

    /// Whether initialisation has come to its end, ready or failed.
    pub fn is_final(&self) -> (done: bool)
        ensures
            done == (pending_action(self@) is Finished),
    {
        match &self.phase {
            RootPhase::Ready { .. } => true,
            RootPhase::Failed { .. } => true,
            _ => false,
        }
    }

    /// Why initialisation failed, where it did.
    pub fn error(&self) -> (error: Option<&RootError>)
        ensures
            match error {
                Some(e) => self@ == (RootStateView::Failed { error: e@ }),
                None => !(self@ is Failed),
            },
    {
        match &self.phase {
            RootPhase::Failed { error } => Some(error),
            _ => None,
        }
    }

    /// What the driver is to do next.
    pub fn action(&self) -> (action: RootAction)
        ensures
            action@ == pending_action(self@),
    {
        match &self.phase {
            RootPhase::Uninitialized => RootAction::Locate,
            RootPhase::Locating { current, .. } => RootAction::ProbeDir { path: current.clone() },
            RootPhase::Checking { root } => RootAction::FindEntry { path: root.clone() },
            RootPhase::Removing { root } => RootAction::RemoveAll { path: root.clone() },
            RootPhase::Creating { root } => RootAction::CreateDir { path: root.clone() },
            RootPhase::Ready { .. } => RootAction::Finished,
            RootPhase::Failed { .. } => RootAction::Finished,
        }
    }

    /// The state after the driver has reported `event`.
    pub fn advance(self, event: RootEvent) -> (next: RootState)
        ensures
            next@ == next_state(self@, event@),
            next.history() == self.history().push(event@),
    {
        proof {
            use_type_invariant(&self);
        }
        let ghost before = self.history@;
        let ghost report = event@;
        proof {
            assert(before.push(report).drop_last() =~= before);
            assert(before.push(report).last() == report);
        }
        RootState { phase: next_phase(self.phase, event), history: Ghost(before.push(report)) }
    }
}

/// The root of all test directories of this process.
///
/// The state has to be `Ready`: where initialisation failed there is no root
/// to hand out, and the caller has to stop. The root that is handed out was
/// reset by this process: cleared first, and created after that.
pub fn get_base_test_dir(state: &RootState) -> (root: &str)
    requires
        state@ is Ready,
    ensures
        state@ == (RootStateView::Ready { root: root@ }),
        was_reset(state.history(), root@),
{
    proof {
        use_type_invariant(state);
    }
    match &state.phase {
        RootPhase::Ready { root } => {
            proof {
                lemma_ready_root_was_reset(state.history@, root@);
            }
            root.as_str()
        },
        _ => vstd::pervasive::unreached(),
    }
}

} // verus!
