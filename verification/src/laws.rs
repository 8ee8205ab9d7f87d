//! What holds of the operations under every strategy and for all paths.

use vstd::prelude::*;
use crate::call::{Call, LinkKind};
use crate::step::Step;
use crate::strategy::Strategy;
use crate::{auto_creation, auto_removal};

verus! {

/// Whatever the strategy and the kind, making a link is one call that puts
/// the link at `dst` and lets it point to `src`.
pub proof fn lemma_creation_is_uniform<P>(strategy: Strategy, kind: LinkKind, src: P, dst: P)
    ensures
        Call::create(strategy, kind, src, dst).place() == dst,
        Call::create(strategy, kind, src, dst).points_to() == Some(src),
{
}

/// Whatever the strategy and the kind, removing a link is one deletion at
/// the place of the link. It names the path it was given and no other, so
/// what the link points to is never the object of the call.
pub proof fn lemma_removal_names_only_the_link<P>(strategy: Strategy, kind: LinkKind, path: P)
    ensures
        Call::remove(strategy, kind, path).place() == path,
        Call::remove(strategy, kind, path).points_to() is None,
        Call::remove(strategy, kind, path) is RemoveFile || Call::remove(strategy, kind, path)
            is RemoveDir,
{
}

/// On Windows the query of an operation that names no kind is about the
/// place of the link: the second path of the making operation, the only path
/// of the removing one.
pub proof fn lemma_auto_inspects_the_link<P>(src: P, dst: P)
    ensures
        auto_creation(Strategy::Windows, src, dst) matches Step::Inspect(pending)
            && pending.subject() == dst,
        auto_removal(Strategy::Windows, dst) matches Step::Inspect(pending) && pending.subject()
            == dst,
{
}

/// Making a link without naming its kind comes to the call that naming the
/// kind would have given: the call for directory links where the host
/// reports the inspected place as a directory, the call for file links where
/// it reports anything else. On Windows those are the two distinct
/// primitives.
pub proof fn lemma_auto_creation_follows_metadata<P, E>(
    strategy: Strategy,
    src: P,
    dst: P,
    is_dir: bool,
)
    ensures
        auto_creation(strategy, src, dst).resolve(Ok::<bool, E>(is_dir)) == Ok::<Call<P>, E>(
            Call::create(strategy, LinkKind::of(is_dir), src, dst),
        ),
        strategy is Windows && is_dir ==> auto_creation(strategy, src, dst).resolve(
            Ok::<bool, E>(is_dir),
        ) == Ok::<Call<P>, E>(Call::SymlinkDir { target: src, link: dst }),
        strategy is Windows && !is_dir ==> auto_creation(strategy, src, dst).resolve(
            Ok::<bool, E>(is_dir),
        ) == Ok::<Call<P>, E>(Call::SymlinkFile { target: src, link: dst }),
{
}

/// Away from Windows the kind of a link has no bearing on how it is made:
/// the operations for file links and for directory links give one and the
/// same call, and the operation that names no kind performs that call
/// without a query, whatever the host would have answered.
pub proof fn lemma_creation_ignores_kind_off_windows<P, E>(
    strategy: Strategy,
    src: P,
    dst: P,
    metadata: Result<bool, E>,
)
    requires
        !(strategy is Windows),
    ensures
        Call::create(strategy, LinkKind::File, src, dst) == Call::create(
            strategy,
            LinkKind::Dir,
            src,
            dst,
        ),
        auto_creation(strategy, src, dst) == Step::Perform(
            Call::create(strategy, LinkKind::File, src, dst),
        ),
        auto_creation(strategy, src, dst).resolve(metadata) == Ok::<Call<P>, E>(
            Call::create(strategy, LinkKind::File, src, dst),
        ),
{
}

/// On Windows an operation that names no kind fails where the host cannot
/// give the metadata of the inspected place, as it cannot for a place where
/// nothing exists: the operation ends with the error of the query, and no
/// call follows. This holds of making a link and of removing one.
pub proof fn lemma_auto_fails_with_the_query<P, E>(src: P, dst: P, error: E)
    ensures
        auto_creation(Strategy::Windows, src, dst).resolve(Err::<bool, E>(error)) == Err::<
            Call<P>,
            E,
        >(error),
        auto_removal(Strategy::Windows, dst).resolve(Err::<bool, E>(error)) == Err::<Call<P>, E>(
            error,
        ),
{
}

/// Removing a link without naming its kind comes to the call that naming
/// the kind would have given: deletion as a directory where a Windows host
/// reports a directory, deletion as a file in every other case.
pub proof fn lemma_auto_removal_follows_metadata<P, E>(strategy: Strategy, path: P, is_dir: bool)
    ensures
        auto_removal(strategy, path).resolve(Ok::<bool, E>(is_dir)) == Ok::<Call<P>, E>(
            Call::remove(strategy, LinkKind::of(is_dir), path),
        ),
        strategy is Windows && is_dir ==> auto_removal(strategy, path).resolve(
            Ok::<bool, E>(is_dir),
        ) == Ok::<Call<P>, E>(Call::RemoveDir { path }),
        !(strategy is Windows && is_dir) ==> auto_removal(strategy, path).resolve(
            Ok::<bool, E>(is_dir),
        ) == Ok::<Call<P>, E>(Call::RemoveFile { path }),
{
}

/// Away from Windows a link is removed as a file whatever its kind, and the
/// operation that names no kind does so without a query, whatever the host
/// would have answered.
pub proof fn lemma_removal_ignores_kind_off_windows<P, E>(
    strategy: Strategy,
    kind: LinkKind,
    path: P,
    metadata: Result<bool, E>,
)
    requires
        !(strategy is Windows),
    ensures
        Call::remove(strategy, kind, path) == (Call::RemoveFile { path }),
        auto_removal(strategy, path).resolve(metadata) == Ok::<Call<P>, E>(
            Call::RemoveFile { path },
        ),
{
}

} // verus!
