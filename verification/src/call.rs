//! The requests that the link operations put to the host.

use vstd::prelude::*;
use crate::strategy::Strategy;

verus! {

/// What a link points to, as far as a host cares that keeps links to files
/// apart from links to directories.
#[derive(Clone, Copy, Debug, PartialEq, Eq, Hash, Structural)]
pub enum LinkKind {
    /// The link stands for a file.
    File,
    /// The link stands for a directory.
    Dir,
}

impl LinkKind {
    /// The kind that a metadata answer speaks of: `Dir` where the inspected
    /// path is a directory, `File` for anything else.
    pub open spec fn spec_of(is_dir: bool) -> LinkKind {
        if is_dir {
            LinkKind::Dir
        } else {
            LinkKind::File
        }
    }

    /// The kind that a metadata answer speaks of: `Dir` where the inspected
    /// path is a directory, `File` for anything else.
    #[verifier::when_used_as_spec(spec_of)]
    pub fn of(is_dir: bool) -> (kind: LinkKind)
        ensures
            kind == Self::spec_of(is_dir),
            is_dir <==> kind is Dir,
    {
        if is_dir {
            LinkKind::Dir
        } else {
            LinkKind::File
        }
    }
}

/// One request to the host's filesystem. Paths are carried through as they
/// were given; nothing here reads them.
///
/// In the four link-making calls, `link` is the path at which the new link
/// appears and `target` is the path that it points to.
#[derive(Debug, PartialEq, Eq, Hash)]
pub enum Call<P> {
    /// Make a symbolic link with the POSIX primitive.
    Symlink { target: P, link: P },
    /// Make a symbolic link to a file with the Windows primitive for files.
    SymlinkFile { target: P, link: P },
    /// Make a symbolic link to a directory with the Windows primitive for
    /// directories.
    SymlinkDir { target: P, link: P },
    /// Make a link with the host's generic soft-link primitive.
    SoftLink { target: P, link: P },
    /// Delete the entry at `path` as a file.
    RemoveFile { path: P },
    /// Delete the entry at `path` as a directory.
    RemoveDir { path: P },
}

impl<P> Call<P> {
    /// The place of the link that the call makes or removes.
    pub open spec fn place(self) -> P {
        match self {
            Call::Symlink { target, link } => link,
            Call::SymlinkFile { target, link } => link,
            Call::SymlinkDir { target, link } => link,
            Call::SoftLink { target, link } => link,
            Call::RemoveFile { path } => path,
            Call::RemoveDir { path } => path,
        }
    }

    /// What the call makes a link point to; `None` for a call that removes.
    pub open spec fn points_to(self) -> Option<P> {
        match self {
            Call::Symlink { target, link } => Some(target),
            Call::SymlinkFile { target, link } => Some(target),
            Call::SymlinkDir { target, link } => Some(target),
            Call::SoftLink { target, link } => Some(target),
            Call::RemoveFile { path } => None,
            Call::RemoveDir { path } => None,
        }
    }

    /// The call that makes, under `strategy`, a link of kind `kind` at `link`
    /// pointing to `target`. Only the Windows strategy looks at `kind`.
    pub open spec fn spec_create(
        strategy: Strategy,
        kind: LinkKind,
        target: P,
        link: P,
    ) -> Call<P> {
        match strategy {
            Strategy::Unix => Call::Symlink { target, link },
            Strategy::Fallback => Call::SoftLink { target, link },
            Strategy::Windows => match kind {
                LinkKind::File => Call::SymlinkFile { target, link },
                LinkKind::Dir => Call::SymlinkDir { target, link },
            },
        }
    }

    /// The call that removes, under `strategy`, the link of kind `kind` at
    /// `path`: deletion as a directory for a directory link on Windows,
    /// deletion as a file in every other case.
    pub open spec fn spec_remove(strategy: Strategy, kind: LinkKind, path: P) -> Call<P> {
        if strategy is Windows && kind is Dir {
            Call::RemoveDir { path }
        } else {
            Call::RemoveFile { path }
        }
    }

    /// Builds the call that makes a link of kind `kind` at `link`, pointing
    /// to `target`.
    #[verifier::when_used_as_spec(spec_create)]
    pub fn create(strategy: Strategy, kind: LinkKind, target: P, link: P) -> (call: Call<P>)
        ensures
            call == Self::spec_create(strategy, kind, target, link),
    {
        match strategy {
            Strategy::Unix => Call::Symlink { target, link },
            Strategy::Fallback => Call::SoftLink { target, link },
            Strategy::Windows => match kind {
                LinkKind::File => Call::SymlinkFile { target, link },
                LinkKind::Dir => Call::SymlinkDir { target, link },
            },
        }
    }

    /// Builds the call that removes the link of kind `kind` at `path`.
    #[verifier::when_used_as_spec(spec_remove)]
    pub fn remove(strategy: Strategy, kind: LinkKind, path: P) -> (call: Call<P>)
        ensures
            call == Self::spec_remove(strategy, kind, path),
    {
        match (strategy, kind) {
            (Strategy::Windows, LinkKind::Dir) => Call::RemoveDir { path },
            _ => Call::RemoveFile { path },
        }
    }
}

} // verus!
