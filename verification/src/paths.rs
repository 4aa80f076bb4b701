//! Paths as text, and the three operations of `std::path` that the protocol
//! needs on them. What std computes is taken on trust and named; the walks
//! built from it are verified.
//!
//! std reads a path by the rules of the platform that the program is built
//! for, so the three names stand for what std computes there.

use std::path::Path;
use vstd::prelude::*;

verus! {

/// The name of the directory that the build system keeps its output in.
pub open spec fn build_dir_name() -> Seq<char> {
    "target"@
}

/// What `Path::join` makes of the path `base` and the relative path `name`.
pub uninterp spec fn joined(base: Seq<char>, name: Seq<char>) -> Seq<char>;

/// What `Path::parent` finds for `path`: the path without its last
/// component, or nothing where there is none to take away.
pub uninterp spec fn parent_of(path: Seq<char>) -> Option<Seq<char>>;

/// What `Path::file_name` finds for `path`: its last component, where that is
/// an ordinary name.
pub uninterp spec fn file_name_of(path: Seq<char>) -> Option<Seq<char>>;

/// Calls `std::path::Path::join`. Trusted: the text of the path that it
/// returns depends on the two texts alone; `joined` is its name. Both texts
/// are valid Unicode, so the path that std builds from them is too, and its
/// text is handed back as it is.
#[verifier::external_body]
pub(crate) fn path_join(base: &str, name: &str) -> (path: String)
    ensures
        path@ == joined(base@, name@),
{
    Path::new(base).join(name).to_string_lossy().into_owned()
}

/// Calls `std::path::Path::parent`. Trusted: whether there is a parent, and
/// its text, depend on the text of `path` alone; `parent_of` is the name.
/// Nothing is claimed of what the parent looks like.
#[verifier::external_body]
pub(crate) fn path_parent(path: &str) -> (parent: Option<String>)
    ensures
        match parent {
            Some(p) => parent_of(path@) == Some(p@),
            None => parent_of(path@) is None,
        },
{
    Path::new(path).parent().map(|p| p.to_string_lossy().into_owned())
}

/// Calls `std::path::Path::file_name`. Trusted: whether there is a file name,
/// and its text, depend on the text of `path` alone; `file_name_of` is the
/// name. Nothing is claimed of what the file name looks like.
#[verifier::external_body]
pub(crate) fn path_file_name(path: &str) -> (name: Option<String>)
    ensures
        match name {
            Some(n) => file_name_of(path@) == Some(n@),
            None => file_name_of(path@) is None,
        },
{
    Path::new(path).file_name().map(|n| n.to_string_lossy().into_owned())
}

/// The parent that the walk towards the root goes on to, given what was
/// found as the parent of `path`: that parent, where there is one and it is
/// shorter than `path`.
pub open spec fn shorter_parent_spec(path: Seq<char>, parent: Option<Seq<char>>) -> Option<
    Seq<char>,
> {
    match parent {
        Some(p) => if p.len() < path.len() {
            Some(p)
        } else {
            None
        },
        None => None,
    }
}

/// `path`, its parent, the parent of that, and so on, nearest first. The walk
/// ends at a path without a parent. It would also end at a parent that is not
/// shorter than its child, which `Path::parent` never hands out.
pub open spec fn ancestors(path: Seq<char>) -> Seq<Seq<char>>
    decreases path.len(),
{
    match shorter_parent_spec(path, parent_of(path)) {
        Some(parent) => seq![path] + ancestors(parent),
        None => seq![path],
    }
}

/// Where the build directory may be, seen from the directory of a package:
/// `target` below each ancestor of `manifest_dir`, nearest first.
pub open spec fn manifest_candidates_spec(manifest_dir: Seq<char>) -> Seq<Seq<char>> {
    ancestors(manifest_dir).map_values(|dir: Seq<char>| joined(dir, build_dir_name()))
}

/// Those of `dirs` whose file name, found at the same place in `names`, is
/// the build directory's name, in the order of `dirs`. A directory for which
/// `names` holds nothing is left out.
pub open spec fn build_dirs_among(
    dirs: Seq<Seq<char>>,
    names: Seq<Option<Seq<char>>>,
) -> Seq<Seq<char>>
    decreases dirs.len(),
{
    if dirs.len() == 0 {
        Seq::empty()
    } else {
        let last = dirs.len() - 1;
        let earlier = build_dirs_among(dirs.drop_last(), names);
        if last < names.len() && names[last] == Some(build_dir_name()) {
            earlier.push(dirs[last])
        } else {
            earlier
        }
    }
}

/// The file names of `dirs`, one for each.
pub open spec fn file_names(dirs: Seq<Seq<char>>) -> Seq<Option<Seq<char>>> {
    dirs.map_values(|dir: Seq<char>| file_name_of(dir))
}

/// Where the build directory may be, seen from a program that runs inside
/// it: each ancestor of `executable` that is called `target`, nearest first.
pub open spec fn executable_candidates_spec(executable: Seq<char>) -> Seq<Seq<char>> {
    build_dirs_among(ancestors(executable), file_names(ancestors(executable)))
}

/// The parent that a walk towards the root goes on to from `path`, where
/// `parent` is what was found as the parent of `path`: the walk goes on only
/// to a parent that is shorter than `path`, so that it ends.
pub fn shorter_parent(path: &str, parent: Option<String>) -> (next: Option<String>)
    ensures
        next.deep_view() == shorter_parent_spec(path@, parent.deep_view()),
{
    match parent {
        Some(p) => {
            if p.as_str().unicode_len() < path.unicode_len() {
                Some(p)
            } else {
                None
            }
        },
        None => None,
    }
}

/// The ancestors of `path`, itself first.
pub fn ancestors_of(path: &str) -> (out: Vec<String>)
    ensures
        out.deep_view() == ancestors(path@),
{
    let mut out: Vec<String> = Vec::new();
    let mut current = path.to_owned();
    assert(out.deep_view() + ancestors(current@) == ancestors(path@));
    loop
        invariant_except_break
            out.deep_view() + ancestors(current@) == ancestors(path@),
        ensures
            out.deep_view() == ancestors(path@),
        decreases current@.len(),
    {
        let ghost before = out.deep_view();
        let ghost here = current@;
        let found = path_parent(current.as_str());
        assert(found.deep_view() == parent_of(here));
        let next = shorter_parent(current.as_str(), found);
        out.push(current);
        assert(out.deep_view() == before + seq![here]);
        match next {
            Some(parent) => {
                assert(before + seq![here] + ancestors(parent@) == before + ancestors(here));
                current = parent;
            },
            None => {
                break ;
            },
        }
    }
    out
}

/// The candidates for the build directory that a package directory gives:
/// `target` below `manifest_dir` and below each of its ancestors, nearest
/// first.
pub fn manifest_candidates(manifest_dir: &str) -> (out: Vec<String>)
    ensures
        out.deep_view() == manifest_candidates_spec(manifest_dir@),
{
    let dirs = ancestors_of(manifest_dir);
    let mut out: Vec<String> = Vec::new();
    let mut i: usize = 0;
    while i < dirs.len()
        invariant
            i <= dirs.len(),
            dirs.deep_view() == ancestors(manifest_dir@),
            out.deep_view() == manifest_candidates_spec(manifest_dir@).take(i as int),
        decreases dirs.len() - i,
    {
        let candidate = path_join(dirs[i].as_str(), "target");
        let ghost before = out.deep_view();
        out.push(candidate);
        assert(out.deep_view() == before.push(candidate@));
        assert(dirs.deep_view()[i as int] == dirs[i as int]@);
        i += 1;
    }
    out
}

/// Those of `dirs` that are called `target`, in their order, where
/// `names[i]` is the file name that was found for `dirs[i]`.
pub fn keep_build_dirs(dirs: Vec<String>, names: Vec<Option<String>>) -> (out: Vec<String>)
    ensures
        out.deep_view() == build_dirs_among(dirs.deep_view(), names.deep_view()),
{
    let wanted = "target".to_owned();
    let mut out: Vec<String> = Vec::new();
    let mut i: usize = 0;
    assert(dirs.deep_view().take(0) == Seq::<Seq<char>>::empty());
    while i < dirs.len()
        invariant
            i <= dirs.len(),
            wanted@ == build_dir_name(),
            out.deep_view() == build_dirs_among(dirs.deep_view().take(i as int), names.deep_view()),
        decreases dirs.len() - i,
    {
        let ghost upto = dirs.deep_view().take(i as int + 1);
        assert(upto.drop_last() == dirs.deep_view().take(i as int));
        assert(upto[i as int] == dirs[i as int]@);
        let is_build_dir = if i < names.len() {
            assert(names.deep_view()[i as int] == names[i as int].deep_view());
            match &names[i] {
                Some(name) => *name == wanted,
                None => false,
            }
        } else {
            false
        };
        if is_build_dir {
            let ghost before = out.deep_view();
            out.push(dirs[i].clone());
            assert(out.deep_view() == before.push(dirs[i as int]@));
        }
        i += 1;
    }
    assert(dirs.deep_view().take(dirs.len() as int) == dirs.deep_view());
    out
}

/// The candidates for the build directory that the path of a running program
/// gives: those of its ancestors, itself included, that are called `target`,
/// nearest first.
pub fn executable_candidates(executable: &str) -> (out: Vec<String>)
    ensures
        out.deep_view() == executable_candidates_spec(executable@),
{
    let dirs = ancestors_of(executable);
    let mut names: Vec<Option<String>> = Vec::new();
    let mut i: usize = 0;
    while i < dirs.len()
        invariant
            i <= dirs.len(),
            names.deep_view() == file_names(dirs.deep_view()).take(i as int),
        decreases dirs.len() - i,
    {
        let name = path_file_name(dirs[i].as_str());
        let ghost before = names.deep_view();
        assert(dirs.deep_view()[i as int] == dirs[i as int]@);
        assert(name.deep_view() == file_name_of(dirs[i as int]@));
        names.push(name);
        assert(names.deep_view() == before.push(name.deep_view()));
        i += 1;
    }
    assert(file_names(dirs.deep_view()).take(dirs.len() as int) == file_names(dirs.deep_view()));
    keep_build_dirs(dirs, names)
}

} // verus!
