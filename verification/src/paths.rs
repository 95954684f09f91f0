//! Where the agent keeps its files.

#[allow(unused_imports)]
use vstd::prelude::*;
use vstd::string::{StrSliceExecFns, StringExecFns};
use crate::failure::{Failure, FailureKind};
#[allow(unused_imports)]
use crate::failure::{failure, fault_of};
use crate::text::{is_blank, same_text, split_text, starts_with_char};
#[allow(unused_imports)]
use crate::text::{all_whitespace, pieces_view, split};

verus! {

/// A path below a directory. An absolute component replaces the directory,
/// and a separator is inserted only where the directory lacks one.
pub open spec fn joined(base: Seq<char>, component: Seq<char>) -> Seq<char> {
    if component.len() > 0 && component[0] == '/' {
        component
    } else if base.len() == 0 || base.last() == '/' {
        base + component
    } else {
        base.push('/') + component
    }
}

/// Whether a path starts at the root.
pub open spec fn absolute(path: Seq<char>) -> bool {
    path.len() > 0 && path[0] == '/'
}

/// Whether `path` starts at the root.
pub fn is_absolute(path: &str) -> (is: bool)
    ensures
        is == absolute(path@),
{
    starts_with_char(path, '/')
}

/// Joins a component to a directory.
pub fn join_path(base: &str, component: &str) -> (path: String)
    ensures
        path@ == joined(base@, component@),
{
    if starts_with_char(component, '/') {
        return component.to_owned();
    }
    let mut path = base.to_owned();
    let length: usize = base.unicode_len();
    if length > 0 && base.get_char(length - 1) != '/' {
        path.push('/');
    }
    path.append(component);
    path
}

/// What a path consists of: whether it starts at the root, and the names that
/// lead on from there.
pub struct Components {
    pub absolute: bool,
    pub names: Seq<Seq<char>>,
}

/// Whether the piece of a path at an index counts. An empty piece does not,
/// and a `.` does only where it leads a relative path.
pub open spec fn counts(piece: Seq<char>, index: int) -> bool {
    piece.len() > 0 && (index == 0 || piece != "."@)
}

/// The pieces that count, in order.
pub open spec fn counted(pieces: Seq<Seq<char>>) -> Seq<Seq<char>>
    decreases pieces.len(),
{
    if pieces.len() == 0 {
        Seq::empty()
    } else {
        let before = counted(pieces.drop_last());
        if counts(pieces.last(), pieces.len() - 1) {
            before.push(pieces.last())
        } else {
            before
        }
    }
}

/// The components of a path.
pub open spec fn components(path: Seq<char>) -> Components {
    Components { absolute: absolute(path), names: counted(split(path, '/')) }
}

/// Lists the names in a path.
fn names_in(path: &str) -> (names: Vec<String>)
    ensures
        pieces_view(names@) == components(path@).names,
{
    let pieces = split_text(path, '/');
    let ghost views = split(path@, '/');
    let mut names: Vec<String> = Vec::new();
    let mut index: usize = 0;
    proof {
        assert(views.take(0) =~= Seq::empty());
        assert(pieces_view(names@) =~= Seq::empty());
    }
    while index < pieces.len()
        invariant
            index <= pieces@.len(),
            views == pieces_view(pieces@),
            pieces_view(names@) == counted(views.take(index as int)),
        decreases pieces@.len() - index,
    {
        let piece = pieces[index].as_str();
        proof {
            assert(views[index as int] == piece@);
            assert(views.take(index as int + 1).drop_last() =~= views.take(index as int));
            assert(views.take(index as int + 1).last() == piece@);
        }
        let ghost before = pieces_view(names@);
        if !piece.is_empty() && (index == 0 || !same_text(piece, ".")) {
            names.push(piece.to_owned());
            proof {
                assert(pieces_view(names@) =~= before.push(piece@));
            }
        }
        index = index + 1;
    }
    proof {
        assert(views.take(index as int) =~= views);
    }
    names
}

/// Whether two paths have the same components. Repeated and trailing
/// separators, and a `.` that leads nowhere, make no difference.
pub fn same_path(a: &str, b: &str) -> (same: bool)
    ensures
        same == (components(a@) == components(b@)),
{
    if is_absolute(a) != is_absolute(b) {
        return false;
    }
    let left = names_in(a);
    let right = names_in(b);
    let ghost left_names = pieces_view(left@);
    let ghost right_names = pieces_view(right@);
    if left.len() != right.len() {
        assert(left_names.len() != right_names.len());
        return false;
    }
    let mut index: usize = 0;
    while index < left.len()
        invariant
            index <= left@.len(),
            left@.len() == right@.len(),
            left_names == pieces_view(left@),
            right_names == pieces_view(right@),
            left_names == components(a@).names,
            right_names == components(b@).names,
            forall|i: int| 0 <= i < index ==> left_names[i] == right_names[i],
        decreases left@.len() - index,
    {
        assert(left_names[index as int] == left@[index as int]@);
        assert(right_names[index as int] == right@[index as int]@);
        if !same_text(left[index].as_str(), right[index].as_str()) {
            return false;
        }
        index = index + 1;
    }
    assert(left_names =~= right_names);
    true
}

/// The files of one installation.
#[derive(Debug, PartialEq, Eq)]
pub struct AppPaths {
    pub support_dir: String,
    pub config_file: String,
    pub run_dir: String,
    pub control_socket: String,
    pub runtime_state: String,
    pub config_fingerprint_key: String,
}

impl Clone for AppPaths {
    fn clone(&self) -> (copy: Self)
        ensures
            copy == *self,
    {
        AppPaths {
            support_dir: self.support_dir.clone(),
            config_file: self.config_file.clone(),
            run_dir: self.run_dir.clone(),
            control_socket: self.control_socket.clone(),
            runtime_state: self.runtime_state.clone(),
            config_fingerprint_key: self.config_fingerprint_key.clone(),
        }
    }
}

impl AppPaths {
    /// Derives every file from the support directory.
    pub fn from_support_dir(support_dir: String) -> (paths: AppPaths)
        ensures
            paths.support_dir@ == support_dir@,
            paths.run_dir@ == joined(support_dir@, "run"@),
            paths.config_file@ == joined(support_dir@, "config.plist"@),
            paths.control_socket@ == joined(joined(support_dir@, "run"@), "control.sock"@),
            paths.runtime_state@ == joined(joined(support_dir@, "run"@), "state.json"@),
            paths.config_fingerprint_key@ == joined(support_dir@, ".config-fingerprint.key"@),
    {
        let run_dir = join_path(support_dir.as_str(), "run");
        AppPaths {
            config_file: join_path(support_dir.as_str(), "config.plist"),
            control_socket: join_path(run_dir.as_str(), "control.sock"),
            runtime_state: join_path(run_dir.as_str(), "state.json"),
            config_fingerprint_key: join_path(support_dir.as_str(), ".config-fingerprint.key"),
            support_dir,
            run_dir,
        }
    }

    /// The directories that must exist, private, before anything else runs,
    /// in the order in which they are created.
    pub fn ensure_directories(&self) -> (directories: Vec<String>)
        ensures
            directories@.len() == 2,
            directories@[0] == self.support_dir,
            directories@[1] == self.run_dir,
    {
        let mut directories: Vec<String> = Vec::new();
        directories.push(self.support_dir.clone());
        directories.push(self.run_dir.clone());
        directories
    }
}

/// The support directory below a home directory.
pub open spec fn default_support_directory(home: Seq<char>) -> Seq<char> {
    joined(joined(joined(home, "Library"@), "Application Support"@), "OpenCodeServer"@)
}

/// An override counts only when it holds more than whitespace.
pub open spec fn effective_override(override_path: Option<String>) -> Option<Seq<char>> {
    match override_path {
        Some(value) => if all_whitespace(value@) {
            None
        } else {
            Some(value@)
        },
        None => None,
    }
}

/// Chooses the support directory from the override and the home directory.
pub fn resolve_support_directory(override_path: Option<String>, home: Option<String>) -> (outcome:
    Result<String, Failure>)
    ensures
        match effective_override(override_path) {
            Some(path) => if absolute(path) {
                outcome matches Ok(chosen) && chosen@ == path
            } else {
                fault_of(outcome) == Some(
                    failure(
                        FailureKind::InvalidInput,
                        "OPENCODESERVER_SUPPORT_DIR must be an absolute path"@,
                    ),
                )
            },
            None => match home {
                Some(directory) if directory@.len() > 0 => outcome matches Ok(chosen) && chosen@
                    == default_support_directory(directory@),
                _ => fault_of(outcome) == Some(
                    failure(FailureKind::NotFound, "HOME is not set"@),
                ),
            },
        },
{
    if let Some(value) = override_path {
        if !is_blank(value.as_str()) {
            if !is_absolute(value.as_str()) {
                return Err(
                    Failure::new(
                        FailureKind::InvalidInput,
                        "OPENCODESERVER_SUPPORT_DIR must be an absolute path",
                    ),
                );
            }
            return Ok(value);
        }
    }
    match home {
        Some(directory) => {
            if directory.as_str().is_empty() {
                return Err(Failure::new(FailureKind::NotFound, "HOME is not set"));
            }
            let library = join_path(directory.as_str(), "Library");
            let application_support = join_path(library.as_str(), "Application Support");
            Ok(join_path(application_support.as_str(), "OpenCodeServer"))
        },
        None => Err(Failure::new(FailureKind::NotFound, "HOME is not set")),
    }
}

/// Whether a created directory is acceptable: a directory itself, not a link.
pub fn ensure_private_directory(path: &str, is_dir: bool, is_symlink: bool) -> (outcome: Result<
    (),
    Failure,
>)
    ensures
        fault_of(outcome) == (if is_dir && !is_symlink {
            None
        } else {
            Some(
                failure(FailureKind::InvalidData, path@ + " is not a private directory"@),
            )
        }),
{
    if !is_dir || is_symlink {
        let message = crate::text::join(path, " is not a private directory");
        return Err(Failure { kind: FailureKind::InvalidData, message });
    }
    Ok(())
}

/// A relative path is put after its base, with one separator between the two;
/// an absolute one stands for itself.
pub proof fn joined_paths_extend_their_base(base: Seq<char>, component: Seq<char>)
    ensures
        absolute(component) ==> joined(base, component) == component,
        !absolute(component) && base.len() > 0 ==> {
            let path = joined(base, component);
            &&& path.take(base.len() as int) == base
            &&& path.skip(path.len() - component.len()) == component
            &&& base.last() == '/' ==> path.len() == base.len() + component.len()
            &&& base.last() != '/' ==> path.len() == base.len() + 1 + component.len()
                && path[base.len() as int] == '/'
        },
        absolute(base) ==> absolute(joined(base, component)),
{
    if !absolute(component) && base.len() > 0 {
        let path = joined(base, component);
        assert(path.take(base.len() as int) =~= base);
        assert(path.skip(path.len() - component.len()) =~= component);
    }
}

/// A separator at the end of a path changes nothing.
pub proof fn trailing_separators_do_not_count(path: Seq<char>)
    requires
        path.len() > 0,
    ensures
        components(path.push('/')) == components(path),
{
    let longer = path.push('/');
    assert(longer.drop_last() =~= path);
    let pieces = split(path, '/');
    assert(split(longer, '/') == pieces.push(Seq::empty()));
    assert(pieces.push(Seq::<char>::empty()).drop_last() =~= pieces);
    assert(counted(pieces.push(Seq::<char>::empty())) == counted(pieces));
}

/// The data of the agent stand in the place that the override names, unless
/// that is blank, and else in the person's own library.
pub proof fn data_stand_in_the_library(home: Seq<char>)
    requires
        home.len() > 0,
        home.last() != '/',
    ensures
        default_support_directory(home) == home + "/Library/Application Support/OpenCodeServer"@,
{
    reveal_strlit("Library");
    reveal_strlit("Application Support");
    reveal_strlit("OpenCodeServer");
    reveal_strlit("/Library/Application Support/OpenCodeServer");
    assert(default_support_directory(home) =~= home
        + "/Library/Application Support/OpenCodeServer"@);
}

} // verus!
