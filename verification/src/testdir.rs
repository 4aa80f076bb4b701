//! The per-test directory allocator: one directory for each test identity.

use crate::basedir::{get_base_test_dir, RootState};
use crate::name::{held_back, lemma_replace_step, replace_separators, test_dir_name};
use crate::paths::{joined, path_join};
use crate::protocol::was_reset;
use vstd::prelude::*;
use vstd::string::StringExecFns;

verus! {

/// The directory of a test could not be created: most often because it is
/// there already, which means that the same name was asked for twice in one
/// process.
#[derive(Clone, Debug, PartialEq, Eq)]
pub struct DirectoryCreateError {
    /// The directory that was to be created.
    pub path: String,
    /// The text of the operating system's error.
    pub cause: String,
}

/// A `DirectoryCreateError` as plain text.
pub struct DirectoryCreateErrorView {
    pub path: Seq<char>,
    pub cause: Seq<char>,
}

impl View for DirectoryCreateError {
    type V = DirectoryCreateErrorView;

    open spec fn view(&self) -> DirectoryCreateErrorView {
        DirectoryCreateErrorView { path: self.path@, cause: self.cause@ }
    }
}

/// What a failed creation is reported with: the path and the cause.
pub open spec fn create_error_text(error: DirectoryCreateErrorView) -> Seq<char> {
    "Could not create test dir "@ + error.path + ": "@ + error.cause
}

impl DirectoryCreateError {
    /// The failure in words, with the path that was to be created and the
    /// text of the operating system's error.
    pub fn message(&self) -> (text: String)
        ensures
            text@ == create_error_text(self@),
    {
        let mut text = "Could not create test dir ".to_owned();
        text.append(self.path.as_str());
        text.append(": ");
        text.append(self.cause.as_str());
        text
    }
}

/// The directory of the test `funcname` of module `modpath` below `root`.
pub open spec fn test_dir_path_spec(
    root: Seq<char>,
    modpath: Seq<char>,
    funcname: Seq<char>,
) -> Seq<char> {
    joined(root, test_dir_name(modpath, funcname))
}

/// What came of a creation, as plain text.
pub open spec fn creation_outcome(created: Result<(), String>) -> Result<(), Seq<char>> {
    match created {
        Ok(_) => Ok(()),
        Err(cause) => Err(cause@),
    }
}

/// What a request for the directory of a test ends in, where `created` is
/// what came of creating the directory: its path where it was created, and
/// the failure with the path and the cause where it was not.
pub open spec fn allocation(
    root: Seq<char>,
    modpath: Seq<char>,
    funcname: Seq<char>,
    created: Result<(), Seq<char>>,
) -> Result<Seq<char>, DirectoryCreateErrorView> {
    let path = test_dir_path_spec(root, modpath, funcname);
    match created {
        Ok(_) => Ok(path),
        Err(cause) => Err(DirectoryCreateErrorView { path, cause }),
    }
}

/// The name of the directory for the test `funcname` of module `modpath`:
/// the module path with each `::` turned into a hyphen, a hyphen, and the
/// function name. Any text is accepted, the empty one too.
pub fn get_test_dir_name(modpath: &str, funcname: &str) -> (name: String)
    ensures
        name@ == test_dir_name(modpath@, funcname@),
{
    let mut name = String::new();
    let mut pending = false;
    assert(held_back(false) + modpath@.skip(0) == modpath@);
    for c in it: modpath.chars()
        invariant
            it.seq() == modpath@,
            replace_separators(modpath@) == name@ + replace_separators(
                held_back(pending) + modpath@.skip(it.index() as int),
            ),
    {
        proof {
            let rest = modpath@.skip(it.index() + 1);
            assert(modpath@.skip(it.index() as int) == seq![c] + rest);
            assert(held_back(pending) + (seq![c] + rest) == held_back(pending) + seq![c] + rest);
            lemma_replace_step(pending, c, rest);
        }
        if pending {
            if c == ':' {
                name.push('-');
            } else {
                name.push(':');
                name.push(c);
            }
            pending = false;
        } else if c == ':' {
            pending = true;
        } else {
            name.push(c);
        }
    }
    if pending {
        name.push(':');
    }
    name.push('-');
    name.append(funcname);
    name
}

/// The path of the directory that belongs to the test `funcname` of module
/// `modpath`: its name, joined under the root. Nothing is created.
///
/// The root has to be ready, so a directory is only ever planned below a
/// root that this process has reset.
pub fn test_dir_path(state: &RootState, modpath: &str, funcname: &str) -> (path: String)
    requires
        state@ is Ready,
    ensures
        path@ == test_dir_path_spec(state@->Ready_root, modpath@, funcname@),
        was_reset(state.history(), state@->Ready_root),
{
    let name = get_test_dir_name(modpath, funcname);
    path_join(get_base_test_dir(state), name.as_str())
}

/// The directory of a test after the attempt to create it.
///
/// `created` is what came of creating, without its parents, the directory
/// `test_dir_path(state, modpath, funcname)`: nothing, or the text of the
/// operating system's error. Where it was created its path is returned.
/// Where it was not, for whatever reason, the error is returned with the path
/// and the cause: no other name is tried, and nothing is tried again.
pub fn try_get_test_dir(
    state: &RootState,
    modpath: &str,
    funcname: &str,
    created: Result<(), String>,
) -> (outcome: Result<String, DirectoryCreateError>)
    requires
        state@ is Ready,
    ensures
        was_reset(state.history(), state@->Ready_root),
        match outcome {
            Ok(path) => allocation(state@->Ready_root, modpath@, funcname@, creation_outcome(created))
                == Ok::<Seq<char>, DirectoryCreateErrorView>(path@),
            Err(error) => allocation(state@->Ready_root, modpath@, funcname@, creation_outcome(created))
                == Err::<Seq<char>, DirectoryCreateErrorView>(error@),
        },
{
    let path = test_dir_path(state, modpath, funcname);
    match created {
        Ok(_) => Ok(path),
        Err(cause) => Err(DirectoryCreateError { path, cause }),
    }
}

/// The directory of a test that was created.
///
/// This is `try_get_test_dir` for the caller that cannot go on without its
/// directory: the root has to be ready and the creation has to have
/// succeeded.
pub fn get_test_dir(
    state: &RootState,
    modpath: &str,
    funcname: &str,
    created: Result<(), String>,
) -> (path: String)
    requires
        state@ is Ready,
        created is Ok,
    ensures
        path@ == test_dir_path_spec(state@->Ready_root, modpath@, funcname@),
        was_reset(state.history(), state@->Ready_root),
{
    match try_get_test_dir(state, modpath, funcname, created) {
        Ok(path) => path,
        Err(_) => vstd::pervasive::unreached(),
    }
}

} // verus!
