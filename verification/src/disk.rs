//! A model of the directory tree, and what the protocol achieves on a
//! filesystem that behaves as the model says.
//!
//! The library never touches the disk. The laws here say what follows for the
//! disk from the driver's reports, where every report is what the modelled
//! filesystem gives: they hold of the model, and of a real disk as far as it
//! behaves like the model.

use crate::paths::ancestors;
use crate::protocol::{pending_action, run, RootActionView, RootEventView, RootStateView};
use crate::testdir::{allocation, test_dir_path_spec};
use vstd::prelude::*;

verus! {

/// What stands at a path.
pub enum Entry {
    /// A file, or anything else that is no directory.
    File,
    /// A directory.
    Directory,
}

/// The directory tree: what stands at which path.
pub struct Tree {
    pub entries: Map<Seq<char>, Entry>,
}

/// `path` lies below `dir`: `dir` is one of its ancestors, and not itself.
pub open spec fn below(path: Seq<char>, dir: Seq<char>) -> bool {
    path != dir && ancestors(path).contains(dir)
}

impl Tree {
    /// The tree holds something at `path`.
    pub open spec fn holds(self, path: Seq<char>) -> bool {
        self.entries.dom().contains(path)
    }

    /// A directory stands at `path`.
    pub open spec fn is_dir(self, path: Seq<char>) -> bool {
        self.holds(path) && self.entries[path] is Directory
    }

    /// Nothing stands at `path` or below it.
    pub open spec fn is_clear(self, path: Seq<char>) -> bool {
        &&& !self.holds(path)
        &&& forall|q: Seq<char>| below(q, path) ==> !self.holds(q)
    }

    /// A directory stands at `path`, and nothing lies below it.
    pub open spec fn is_empty_dir(self, path: Seq<char>) -> bool {
        &&& self.is_dir(path)
        &&& forall|q: Seq<char>| below(q, path) ==> !self.holds(q)
    }

    /// What lies below `path` lies in a directory: it is there only if a
    /// directory stands at `path`. Every directory tree is of this kind.
    pub open spec fn is_closed_at(self, path: Seq<char>) -> bool {
        forall|q: Seq<char>| self.holds(q) && below(q, path) ==> self.is_dir(path)
    }

    /// The tree without what stands at `path` and without all that lies
    /// below it.
    pub open spec fn without(self, path: Seq<char>) -> Tree {
        Tree {
            entries: Map::new(
                |q: Seq<char>| self.holds(q) && q != path && !below(q, path),
                |q: Seq<char>| self.entries[q],
            ),
        }
    }

    /// The tree with a directory at `path`.
    pub open spec fn with_dir(self, path: Seq<char>) -> Tree {
        Tree { entries: self.entries.insert(path, Entry::Directory) }
    }
}

/// The report `event` is what the filesystem gives to the creation of the
/// one directory `path`, and `after` is what it leaves of `before`: the
/// directory is created where nothing stood at `path`; where the creation is
/// refused the tree is as it was. What exists is never created again.
pub open spec fn creation_answered(
    before: Tree,
    path: Seq<char>,
    event: RootEventView,
    after: Tree,
) -> bool {
    ||| event == RootEventView::Completed && !before.holds(path) && after == before.with_dir(path)
    ||| event is IoFailed && after == before
}

/// The report `event` is what the filesystem gives to `action` in the tree
/// `before`, and `after` is what it leaves. Looking changes nothing; a
/// removal that was carried out leaves nothing at the path or below it, and
/// one that failed may leave anything.
pub open spec fn answered(
    before: Tree,
    action: RootActionView,
    event: RootEventView,
    after: Tree,
) -> bool {
    match action {
        RootActionView::Locate => after == before && (event is Candidates || event is IoFailed),
        RootActionView::ProbeDir { path } => after == before && (event is IoFailed || event == (
        RootEventView::Probed { is_dir: before.is_dir(path) })),
        RootActionView::FindEntry { path } => after == before && (event is IoFailed || event == (
        RootEventView::Found { exists: before.holds(path) })),
        RootActionView::RemoveAll { path } => event is IoFailed || (event
            == RootEventView::Completed && after == before.without(path)),
        RootActionView::CreateDir { path } => creation_answered(before, path, event, after),
        RootActionView::Finished => false,
    }
}

/// `events` are the reports of a driver that did what the resolver asked for,
/// one action after the other, on a filesystem that went through `trees`:
/// `trees[k]` is the tree before report number `k`, and the last tree is the
/// one that the run leaves.
pub open spec fn faithful(trees: Seq<Tree>, events: Seq<RootEventView>) -> bool {
    &&& trees.len() == events.len() + 1
    &&& forall|k: int|
        0 <= k < events.len() ==> answered(
            #[trigger] trees[k],
            pending_action(run(events.take(k))),
            events[k],
            trees[k + 1],
        )
}

/// What a faithful run has achieved for `root` after its first `k` reports.
spec fn progress(trees: Seq<Tree>, events: Seq<RootEventView>, root: Seq<char>, k: int) -> bool {
    match run(events.take(k)) {
        RootStateView::Uninitialized => trees[k] == trees[0],
        RootStateView::Locating { .. } => trees[k] == trees[0],
        RootStateView::Checking { .. } => trees[k] == trees[0],
        RootStateView::Removing { .. } => true,
        RootStateView::Creating { root: r } => r == root ==> trees[k].is_clear(root),
        RootStateView::Ready { root: r } => r == root ==> trees[k].is_empty_dir(root),
        RootStateView::Failed { .. } => true,
    }
}

proof fn lemma_progress(trees: Seq<Tree>, events: Seq<RootEventView>, root: Seq<char>, k: int)
    requires
        faithful(trees, events),
        trees[0].is_closed_at(root),
        0 <= k <= events.len(),
    ensures
        progress(trees, events, root, k),
    decreases k,
{
    if k == 0 {
        assert(events.take(0).len() == 0);
    } else {
        lemma_progress(trees, events, root, k - 1);
        let upto = events.take(k);
        assert(upto.drop_last() == events.take(k - 1));
        assert(upto.last() == events[k - 1]);
        let before = run(events.take(k - 1));
        assert(answered(trees[k - 1], pending_action(before), events[k - 1], trees[k]));
        match run(upto) {
            RootStateView::Creating { root: r } => {
                if r == root && before is Removing {
                    assert(trees[k] == trees[k - 1].without(root));
                }
            },
            RootStateView::Ready { root: r } => {
                if r == root {
                    assert(trees[k] == trees[k - 1].with_dir(root));
                    assert(trees[k - 1].is_clear(root));
                }
            },
            _ => {},
        }
    }
}

/// The root that is ready is an empty directory: after a faithful run that
/// ends with `root` ready, a directory stands at `root` and nothing lies
/// below it, whatever stood at `root` or below it before.
pub proof fn lemma_ready_root_is_an_empty_directory(
    trees: Seq<Tree>,
    events: Seq<RootEventView>,
    root: Seq<char>,
)
    requires
        faithful(trees, events),
        trees[0].is_closed_at(root),
        run(events) == (RootStateView::Ready { root }),
    ensures
        trees.last().is_empty_dir(root),
{
    lemma_progress(trees, events, root, events.len() as int);
    assert(events.take(events.len() as int) == events);
}

/// Nothing of an earlier run is left: after a faithful run that ends with
/// `root` ready, whatever path lies below `root` holds nothing.
pub proof fn lemma_stale_content_is_gone(
    trees: Seq<Tree>,
    events: Seq<RootEventView>,
    root: Seq<char>,
    stale: Seq<char>,
)
    requires
        faithful(trees, events),
        trees[0].is_closed_at(root),
        run(events) == (RootStateView::Ready { root }),
        below(stale, root),
    ensures
        !trees.last().holds(stale),
{
    lemma_ready_root_is_an_empty_directory(trees, events, root);
}

/// What the allocator is told of a creation, as a report.
pub open spec fn creation_report(created: Result<(), Seq<char>>) -> RootEventView {
    match created {
        Ok(_) => RootEventView::Completed,
        Err(cause) => RootEventView::IoFailed { cause },
    }
}

/// The directory that a test is handed exists and is empty: where the
/// request for the directory of a test ends in a path, the creation was
/// reported done, so a directory stands at that path afterwards and nothing
/// lies below it.
pub proof fn lemma_handed_out_directory_is_empty(
    before: Tree,
    root: Seq<char>,
    modpath: Seq<char>,
    funcname: Seq<char>,
    created: Result<(), Seq<char>>,
    after: Tree,
)
    requires
        before.is_closed_at(test_dir_path_spec(root, modpath, funcname)),
        creation_answered(
            before,
            test_dir_path_spec(root, modpath, funcname),
            creation_report(created),
            after,
        ),
    ensures
        allocation(root, modpath, funcname, created) matches Ok(path) ==> after.is_empty_dir(path),
{
}

/// No directory is handed out twice: where the directory of a test is there
/// already, as it is after a first request for the same test, the request
/// ends in an error, and the tree, with that directory and all that is in
/// it, is left as it was.
pub proof fn lemma_second_request_fails(
    before: Tree,
    root: Seq<char>,
    modpath: Seq<char>,
    funcname: Seq<char>,
    created: Result<(), Seq<char>>,
    after: Tree,
)
    requires
        before.holds(test_dir_path_spec(root, modpath, funcname)),
        creation_answered(
            before,
            test_dir_path_spec(root, modpath, funcname),
            creation_report(created),
            after,
        ),
    ensures
        allocation(root, modpath, funcname, created) is Err,
        after == before,
{
}

} // verus!
