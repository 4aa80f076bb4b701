//! Laws of the root's lifecycle: what every run of the resolver has in common,
//! whatever the filesystem answers.

use crate::protocol::{
    cleared, cleared_at, created, created_at, locate_among, next_state, pending_action,
    root_below, run, was_reset, RootErrorView, RootEventView, RootStateView,
};
use vstd::prelude::*;

verus! {

/// The answers of a filesystem in which exactly the paths in `dirs` are
/// directories, to the probing of `candidates` one after the other.
pub open spec fn probe_answers(candidates: Seq<Seq<char>>, dirs: Set<Seq<char>>) -> Seq<
    RootEventView,
> {
    candidates.map_values(|path: Seq<char>| RootEventView::Probed { is_dir: dirs.contains(path) })
}

/// None of `candidates` is a directory.
pub open spec fn none_is_dir(candidates: Seq<Seq<char>>, dirs: Set<Seq<char>>) -> bool {
    forall|k: int| 0 <= k < candidates.len() ==> !dirs.contains(#[trigger] candidates[k])
}

/// The state after `events` were reported to a resolver in `state`.
pub open spec fn run_from(state: RootStateView, events: Seq<RootEventView>) -> RootStateView
    decreases events.len(),
{
    if events.len() == 0 {
        state
    } else {
        run_from(next_state(state, events[0]), events.skip(1))
    }
}

/// A final state stays what it is, whatever is reported: once the root is
/// ready it is the same root for the rest of the process, and a failure is
/// never tried again.
pub proof fn lemma_final_states_absorb(state: RootStateView, event: RootEventView)
    requires
        pending_action(state) is Finished,
    ensures
        next_state(state, event) == state,
{
}

/// The root becomes ready by the report of its creation and in no other way.
pub proof fn lemma_ready_only_by_creation(state: RootStateView, event: RootEventView)
    requires
        next_state(state, event) is Ready,
        !(state is Ready),
    ensures
        created(state, event, next_state(state, event)->Ready_root),
{
}

/// The creation of the root is asked for only once nothing was found to
/// stand at the root, or what stood there was removed.
pub proof fn lemma_creation_only_after_clearing(state: RootStateView, event: RootEventView)
    requires
        next_state(state, event) is Creating,
        !(state is Creating),
    ensures
        cleared(state, event, next_state(state, event)->Creating_root),
{
}

/// The removal of the root is asked for only where something was found to
/// stand at the root.
pub proof fn lemma_removal_only_of_existing(state: RootStateView, event: RootEventView)
    requires
        next_state(state, event) is Removing,
        !(state is Removing),
    ensures
        state == (RootStateView::Checking { root: next_state(state, event)->Removing_root }),
        event == (RootEventView::Found { exists: true }),
{
}

/// The search takes the first candidate that is a directory: probing the
/// candidates before `k`, none of which is a directory, and then the
/// directory `candidates[k]`, leaves the resolver checking the root below
/// `candidates[k]`.
pub proof fn lemma_search_takes_first_directory(
    tried: Seq<Seq<char>>,
    candidates: Seq<Seq<char>>,
    dirs: Set<Seq<char>>,
    k: int,
)
    requires
        0 <= k < candidates.len(),
        none_is_dir(candidates.take(k), dirs),
        dirs.contains(candidates[k]),
    ensures
        run_from(
            locate_among(tried, candidates),
            probe_answers(candidates.take(k + 1), dirs),
        ) == (RootStateView::Checking { root: root_below(candidates[k]) }),
    decreases k,
{
    let answers = probe_answers(candidates.take(k + 1), dirs);
    let start = locate_among(tried, candidates);
    assert(answers[0] == RootEventView::Probed { is_dir: dirs.contains(candidates[0]) });
    if k == 0 {
        assert(answers.skip(1).len() == 0);
        assert(run_from(next_state(start, answers[0]), answers.skip(1)) == next_state(
            start,
            answers[0],
        ));
    } else {
        let rest = candidates.skip(1);
        assert(candidates.take(k)[0] == candidates[0]);
        assert(next_state(start, answers[0]) == locate_among(tried.push(candidates[0]), rest));
        assert forall|j: int| 0 <= j < rest.take(k - 1).len() implies !dirs.contains(
            #[trigger] rest.take(k - 1)[j],
        ) by {
            assert(rest.take(k - 1)[j] == candidates.take(k)[j + 1]);
        }
        lemma_search_takes_first_directory(tried.push(candidates[0]), rest, dirs, k - 1);
        assert(answers.skip(1) == probe_answers(rest.take(k), dirs));
    }
}

/// Where no candidate is a directory, the search fails once all were probed,
/// and the failure carries every candidate, in the order of the trials.
pub proof fn lemma_search_fails_with_all_candidates(
    tried: Seq<Seq<char>>,
    candidates: Seq<Seq<char>>,
    dirs: Set<Seq<char>>,
)
    requires
        none_is_dir(candidates, dirs),
    ensures
        run_from(locate_among(tried, candidates), probe_answers(candidates, dirs)) == (
        RootStateView::Failed {
            error: RootErrorView::RootNotFound { candidates: tried + candidates },
        }),
    decreases candidates.len(),
{
    let answers = probe_answers(candidates, dirs);
    let start = locate_among(tried, candidates);
    if candidates.len() == 0 {
        assert(tried + candidates == tried);
    } else {
        let rest = candidates.skip(1);
        assert(!dirs.contains(candidates[0]));
        assert(answers[0] == RootEventView::Probed { is_dir: false });
        assert(next_state(start, answers[0]) == locate_among(tried.push(candidates[0]), rest));
        assert forall|j: int| 0 <= j < rest.len() implies !dirs.contains(#[trigger] rest[j]) by {
            assert(rest[j] == candidates[j + 1]);
        }
        lemma_search_fails_with_all_candidates(tried.push(candidates[0]), rest, dirs);
        assert(answers.skip(1) == probe_answers(rest, dirs));
        assert(tried.push(candidates[0]) + rest == tried + candidates);
    }
}

/// While the resolver asks for the creation of `root`, the root has been
/// cleared in this run; once the root is ready, it has been cleared and then
/// created.
proof fn lemma_run_history(events: Seq<RootEventView>)
    ensures
        run(events) matches RootStateView::Creating { root } ==> exists|j: int|
            cleared_at(events, root, j),
        run(events) matches RootStateView::Ready { root } ==> exists|j: int, i: int|
            j < i && cleared_at(events, root, j) && created_at(events, root, i),
    decreases events.len(),
{
    if events.len() > 0 {
        let earlier = events.drop_last();
        let last = events.len() - 1;
        let before = run(earlier);
        lemma_run_history(earlier);
        assert(events.take(last) == earlier);
        assert forall|j: int, root: Seq<char>| cleared_at(earlier, root, j) implies cleared_at(
            events,
            root,
            j,
        ) by {
            assert(earlier.take(j) == events.take(j));
        }
        assert forall|i: int, root: Seq<char>| created_at(earlier, root, i) implies created_at(
            events,
            root,
            i,
        ) by {
            assert(earlier.take(i) == events.take(i));
        }
        match run(events) {
            RootStateView::Creating { root } => {
                if before is Creating {
                    let j = choose|j: int| cleared_at(earlier, root, j);
                    assert(cleared_at(events, root, j));
                } else {
                    assert(cleared_at(events, root, last));
                }
            },
            RootStateView::Ready { root } => {
                if before is Ready {
                    let (j, i) = choose|j: int, i: int|
                        j < i && cleared_at(earlier, root, j) && created_at(earlier, root, i);
                    assert(j < i && cleared_at(events, root, j) && created_at(events, root, i));
                } else {
                    let j = choose|j: int| cleared_at(earlier, root, j);
                    assert(j < last && cleared_at(events, root, j) && created_at(
                        events,
                        root,
                        last,
                    ));
                }
            },
            _ => {},
        }
    }
}

/// A root that is ready was reset by this process: in every run that ends
/// with `root` ready, first nothing was found at `root` or what stood there
/// was removed, and `root` was created after that.
pub proof fn lemma_ready_root_was_reset(events: Seq<RootEventView>, root: Seq<char>)
    requires
        run(events) == (RootStateView::Ready { root }),
    ensures
        was_reset(events, root),
{
    lemma_run_history(events);
}

} // verus!
