//! The families of host primitives that can back the link operations.

use vstd::prelude::*;

verus! {

/// The family of host primitives that backs the link operations.
///
/// A build settles on one strategy for good. The operations whose request
/// depends on the host take it as their first argument.
#[derive(Clone, Copy, Debug, PartialEq, Eq, Hash, Structural)]
pub enum Strategy {
    /// POSIX hosts: one kind of symbolic link, made by one primitive and
    /// removed like a file.
    Unix,
    /// Windows hosts: links to files and links to directories are made by
    /// two primitives and removed by two primitives.
    Windows,
    /// Hosts that offer only a generic soft-link primitive.
    Fallback,
}

impl Strategy {
    /// The strategy for a kind of platform, told by whether it belongs to
    /// the Windows family and whether it belongs to the Unix family. Windows
    /// goes first: a platform that claims both is served as Windows. One
    /// that claims neither gets the fallback, so that every platform has a
    /// strategy.
    pub fn for_platform(windows: bool, unix: bool) -> (strategy: Strategy)
        ensures
            windows ==> strategy is Windows,
            !windows && unix ==> strategy is Unix,
            !windows && !unix ==> strategy is Fallback,
    {
        if windows {
            Strategy::Windows
        } else if unix {
            Strategy::Unix
        } else {
            Strategy::Fallback
        }
    }
}

} // verus!
