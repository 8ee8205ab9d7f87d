//! Decisions behind a platform-uniform way of making and removing symbolic
//! links.
//!
//! POSIX hosts know one kind of symbolic link. Windows hosts know two, made
//! and removed by different primitives, and a few hosts offer only a generic
//! soft link. The six operations of this crate hide the difference: each one
//! says which request to put to the host, or, for the two `auto` operations
//! on Windows, that the host has to be asked first whether a path is a
//! directory.
//!
//! Nothing here touches a filesystem. An operation takes the [`Strategy`] of
//! the host and the paths, which it carries through unread, and returns a
//! [`Call`] or a [`Step`]. The caller puts the call to the host, and the
//! outcome of that call is the outcome of the operation.

use vstd::prelude::*;

pub mod call;
pub mod laws;
pub mod step;
pub mod strategy;

pub use crate::call::{Call, LinkKind};
pub use crate::step::{Pending, Step};
pub use crate::strategy::Strategy;

verus! {

/// What making a link starts with when the caller does not name the kind of
/// link: on Windows a query for the metadata of `link`, elsewhere the one
/// link-making call of the host.
pub open spec fn auto_creation<P>(strategy: Strategy, target: P, link: P) -> Step<P> {
    match strategy {
        Strategy::Unix => Step::Perform(Call::Symlink { target, link }),
        Strategy::Fallback => Step::Perform(Call::SoftLink { target, link }),
        Strategy::Windows => Step::Inspect(Pending::Create { target, link }),
    }
}

/// What removing a link starts with when the caller does not name the kind
/// of link: on Windows a query for the metadata of `path`, elsewhere the
/// deletion of `path` as a file.
pub open spec fn auto_removal<P>(strategy: Strategy, path: P) -> Step<P> {
    match strategy {
        Strategy::Windows => Step::Inspect(Pending::Remove { path }),
        _ => Step::Perform(Call::RemoveFile { path }),
    }
}

/// Makes a symbolic link at `dst` that points to `src`, finding out by
/// itself whether it is a link to a file or to a directory.
///
/// On Unix and with the fallback strategy there is nothing to find out: the
/// step performs the host's one link-making call, whether or not `src`
/// exists. On Windows the step asks for the metadata of `dst`, and the
/// operation fails where that query fails; prefer [`symlink_file`] or
/// [`symlink_dir`] where the kind is known.
pub fn symlink_auto<P>(strategy: Strategy, src: P, dst: P) -> (step: Step<P>)
    ensures
        step == auto_creation(strategy, src, dst),
        step is Inspect <==> strategy is Windows,
{
    match strategy {
        Strategy::Unix => Step::Perform(Call::Symlink { target: src, link: dst }),
        Strategy::Fallback => Step::Perform(Call::SoftLink { target: src, link: dst }),
        Strategy::Windows => Step::Inspect(Pending::Create { target: src, link: dst }),
    }
}

/// Makes a symbolic link to a file: the link appears at `dst` and points to
/// `src`.
///
/// On Windows this is the primitive for links to files. The host is not
/// asked anything first, and `src` need not exist. Elsewhere it is the
/// host's one link-making call, the same as for [`symlink_dir`].
pub fn symlink_file<P>(strategy: Strategy, src: P, dst: P) -> (call: Call<P>)
    ensures
        call == Call::create(strategy, LinkKind::File, src, dst),
{
    Call::create(strategy, LinkKind::File, src, dst)
}

/// Makes a symbolic link to a directory: the link appears at `dst` and
/// points to `src`.
///
/// On Windows this is the primitive for links to directories. Elsewhere it
/// is the host's one link-making call, the same as for [`symlink_file`].
pub fn symlink_dir<P>(strategy: Strategy, src: P, dst: P) -> (call: Call<P>)
    ensures
        call == Call::create(strategy, LinkKind::Dir, src, dst),
{
    Call::create(strategy, LinkKind::Dir, src, dst)
}

/// Removes the symbolic link at `path`, finding out by itself whether it is
/// a link to a file or to a directory.
///
/// On Windows the step asks for the metadata of `path`; elsewhere it deletes
/// `path` as a file.
pub fn remove_symlink_auto<P>(strategy: Strategy, path: P) -> (step: Step<P>)
    ensures
        step == auto_removal(strategy, path),
        step is Inspect <==> strategy is Windows,
{
    match strategy {
        Strategy::Windows => Step::Inspect(Pending::Remove { path }),
        _ => Step::Perform(Call::RemoveFile { path }),
    }
}

/// Removes the symbolic link to a directory at `path`: by deletion as a
/// directory on Windows, by deletion as a file elsewhere.
pub fn remove_symlink_dir<P>(strategy: Strategy, path: P) -> (call: Call<P>)
    ensures
        call == Call::remove(strategy, LinkKind::Dir, path),
{
    Call::remove(strategy, LinkKind::Dir, path)
}

/// Removes the symbolic link to a file at `path`: by deletion as a file,
/// whatever the host.
pub fn remove_symlink_file<P>(path: P) -> (call: Call<P>)
    ensures
        call == (Call::RemoveFile { path }),
{
    Call::RemoveFile { path }
}

} // verus!
