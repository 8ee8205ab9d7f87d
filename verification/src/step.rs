//! How an operation proceeds: at once, or after a query to the host.

use vstd::prelude::*;
use crate::call::{Call, LinkKind};
use crate::strategy::Strategy;

verus! {

/// An operation on a Windows host that cannot go on before the host has said
/// whether a path is a directory.
#[derive(Debug, PartialEq, Eq, Hash)]
pub enum Pending<P> {
    /// A link is to appear at `link`, pointing to `target`.
    Create { target: P, link: P },
    /// The link at `path` is to go.
    Remove { path: P },
}

/// The next thing to do for an operation.
#[derive(Debug, PartialEq, Eq, Hash)]
pub enum Step<P> {
    /// Put this call to the host. Its outcome is the outcome of the
    /// operation.
    Perform(Call<P>),
    /// Ask the host for the metadata of the pending operation's subject,
    /// then resume the operation with the answer.
    Inspect(Pending<P>),
}

impl<P> Pending<P> {
    /// The path whose metadata decides how the operation goes on: the place
    /// of the link, never what the link points to.
    pub open spec fn spec_subject(&self) -> &P {
        match self {
            Pending::Create { target, link } => link,
            Pending::Remove { path } => path,
        }
    }

    /// The call that completes the operation once the kind is known.
    pub open spec fn call(self, kind: LinkKind) -> Call<P> {
        match self {
            Pending::Create { target, link } => {
                Call::create(Strategy::Windows, kind, target, link)
            },
            Pending::Remove { path } => Call::remove(Strategy::Windows, kind, path),
        }
    }

    /// What the operation comes to once the host has answered: the answer's
    /// error where the query failed, else the call for the kind it reported.
    pub open spec fn spec_resume<E>(self, metadata: Result<bool, E>) -> Result<Call<P>, E> {
        match metadata {
            Ok(is_dir) => Ok(self.call(LinkKind::of(is_dir))),
            Err(e) => Err(e),
        }
    }

    /// The path whose metadata the host is to be asked for.
    #[verifier::when_used_as_spec(spec_subject)]
    pub fn subject(&self) -> (path: &P)
        ensures
            *path == self.spec_subject(),
    {
        match self {
            Pending::Create { target: _, link } => link,
            Pending::Remove { path } => path,
        }
    }

    /// Goes on with the operation. `metadata` is the host's answer to the
    /// query on `self.subject()`: `Ok(true)` for a directory, `Ok(false)`
    /// for anything else, `Err` where the query failed. A failed query ends
    /// the operation with that very error, and no call is made.
    #[verifier::when_used_as_spec(spec_resume)]
    pub fn resume<E>(self, metadata: Result<bool, E>) -> (next: Result<Call<P>, E>)
        ensures
            next == self.spec_resume(metadata),
            next is Ok <==> metadata is Ok,
    {
        match metadata {
            Ok(is_dir) => {
                let kind = LinkKind::of(is_dir);
                match self {
                    Pending::Create { target, link } => {
                        Ok(Call::create(Strategy::Windows, kind, target, link))
                    },
                    Pending::Remove { path } => Ok(Call::remove(Strategy::Windows, kind, path)),
                }
            },
            Err(e) => Err(e),
        }
    }
}

impl<P> Step<P> {
    /// The call that the step comes to, or the error that ends it. `metadata`
    /// is the host's answer about the subject of a pending operation; a step
    /// that performs its call at once does not look at it.
    pub open spec fn resolve<E>(self, metadata: Result<bool, E>) -> Result<Call<P>, E> {
        match self {
            Step::Perform(call) => Ok(call),
            Step::Inspect(pending) => pending.resume(metadata),
        }
    }

    /// Whether carrying out the step can put `call` to the host.
    pub open spec fn may_perform(self, call: Call<P>) -> bool {
        match self {
            Step::Perform(own) => call == own,
            Step::Inspect(pending) => {
                ||| call == pending.call(LinkKind::File)
                ||| call == pending.call(LinkKind::Dir)
            },
        }
    }

    /// Carries the step out against a host given as two functions:
    /// `metadata` says whether a path is a directory, `perform` executes a
    /// call. Returns the outcome of the operation.
    ///
    /// A step that performs its call at once hands the call to `perform` and
    /// returns what it returned, without a query. A step that inspects first
    /// queries the subject of its pending operation; where the query fails,
    /// its error is returned and `perform` is not called; otherwise the call
    /// for the reported kind goes to `perform`, whose result is returned.
    pub fn run<E, M, F>(self, metadata: M, perform: F) -> (outcome: Result<(), E>) where
        M: FnOnce(&P) -> Result<bool, E>,
        F: FnOnce(Call<P>) -> Result<(), E>,

        requires
            self matches Step::Inspect(pending) ==> call_requires(metadata, (pending.subject(),)),
            forall|call: Call<P>|
                self.may_perform(call) ==> #[trigger] call_requires(perform, (call,)),
        ensures
            match self {
                Step::Perform(call) => call_ensures(perform, (call,), outcome),
                Step::Inspect(pending) => exists|answer: Result<bool, E>|
                    {
                        &&& call_ensures(metadata, (pending.subject(),), answer)
                        &&& match pending.resume(answer) {
                            Ok(call) => call_ensures(perform, (call,), outcome),
                            Err(e) => outcome == Err::<(), E>(e),
                        }
                    },
            },
    {
        match self {
            Step::Perform(call) => perform(call),
            Step::Inspect(pending) => {
                let answer = metadata(pending.subject());
                match pending.resume(answer) {
                    Ok(call) => perform(call),
                    Err(e) => Err(e),
                }
            },
        }
    }
}

} // verus!
