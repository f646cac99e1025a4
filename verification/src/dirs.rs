//! Settling on a directory when the wanted one may not be creatable.
//!
//! The caller tries to create a directory and reports how the system
//! answered. Permission denied on the wanted directory is no failure: the
//! fallback directory is tried instead, once. Every other failure, and any
//! failure on the fallback, is final.

use vstd::prelude::*;
use crate::settings::WARNING;
use crate::text::owned;

verus! {

/// How the system answered an attempt on a directory.
#[derive(Debug, Clone, Copy, PartialEq, Eq, Structural)]
pub enum Access {
    /// The attempt succeeded.
    Granted,
    /// The attempt failed for want of permission.
    Denied,
    /// The attempt failed for another reason.
    Failed,
}

/// What follows an attempt.
#[derive(Debug, Clone, Copy, PartialEq, Eq, Structural)]
pub enum DirStep {
    /// The directory of the attempt is the one to use.
    Resolved,
    /// The wanted directory was denied: warn, and try the fallback.
    Retry,
    /// No directory can be had.
    Failed,
}

/// The directory that was settled on.
#[derive(Debug)]
pub struct ResolvedDir {
    pub path: String,
    /// Whether `path` is the fallback rather than the wanted directory.
    pub used_fallback: bool,
}

/// A resolution under way: the wanted directory, the fallback, and which of
/// them the next attempt is for.
#[derive(Debug)]
pub struct DirFallback {
    pub target: String,
    pub fallback: String,
    pub on_fallback: bool,
}

/// What an attempt's answer leads to: whether the resolution is on the
/// fallback afterwards, and what the caller does next.
pub open spec fn dir_next(on_fallback: bool, outcome: Access) -> (bool, DirStep) {
    match outcome {
        Access::Granted => (on_fallback, DirStep::Resolved),
        Access::Denied => if on_fallback {
            (true, DirStep::Failed)
        } else {
            (true, DirStep::Retry)
        },
        Access::Failed => (on_fallback, DirStep::Failed),
    }
}

/// Whether the resolution is on the fallback after these answers, one per
/// attempt, starting from `on_fallback`.
pub open spec fn on_fallback_after(on_fallback: bool, outcomes: Seq<Access>) -> bool
    decreases outcomes.len(),
{
    if outcomes.len() == 0 {
        on_fallback
    } else {
        dir_next(on_fallback_after(on_fallback, outcomes.drop_last()), outcomes.last()).0
    }
}

/// How often these answers lead to another attempt.
pub open spec fn retries(on_fallback: bool, outcomes: Seq<Access>) -> nat
    decreases outcomes.len(),
{
    if outcomes.len() == 0 {
        0
    } else {
        let before = on_fallback_after(on_fallback, outcomes.drop_last());
        let earlier = retries(on_fallback, outcomes.drop_last());
        if dir_next(before, outcomes.last()).1 == DirStep::Retry {
            earlier + 1
        } else {
            earlier
        }
    }
}

/// Once the fallback is in use it stays in use, and nothing asks for
/// another attempt: whatever the system answers from then on, the wanted
/// directory is not tried again.
pub proof fn lemma_fallback_is_final(outcomes: Seq<Access>)
    ensures
        on_fallback_after(true, outcomes),
        retries(true, outcomes) == 0,
    decreases outcomes.len(),
{
    if outcomes.len() > 0 {
        lemma_fallback_is_final(outcomes.drop_last());
    }
}

/// From the start, whatever the system answers, at most one answer leads to
/// another attempt, and that attempt is for the fallback.
pub proof fn lemma_wanted_tried_once(outcomes: Seq<Access>)
    ensures
        retries(false, outcomes) <= 1,
        retries(false, outcomes) == 1 ==> on_fallback_after(false, outcomes),
        on_fallback_after(false, outcomes) ==> retries(false, outcomes) == 1,
    decreases outcomes.len(),
{
    if outcomes.len() > 0 {
        lemma_wanted_tried_once(outcomes.drop_last());
    }
}

/// What is said, after the word "Warning", when a directory was denied.
pub open spec fn denied_wording(target: Seq<char>) -> Seq<char> {
    "Permission denied to create '"@ + target + "', using default directory instead..."@
}

/// The warning shown when `target` was denied and the fallback is tried.
pub fn denied_warning(target: &str) -> (r: String)
    ensures
        r@ == WARNING@ + denied_wording(target@),
{
    let mut out = owned(WARNING);
    out.append("Permission denied to create '");
    out.append(target);
    out.append("', using default directory instead...");
    out
}

impl DirFallback {
    /// The directory that the next attempt is for.
    pub open spec fn current(&self) -> Seq<char> {
        if self.on_fallback {
            self.fallback@
        } else {
            self.target@
        }
    }

    /// Starts a resolution; the first attempt is for `target`.
    pub fn new(target: String, fallback: String) -> (r: DirFallback)
        ensures
            r.target@ == target@,
            r.fallback@ == fallback@,
            !r.on_fallback,
    {
        DirFallback { target, fallback, on_fallback: false }
    }

    /// The directory to try to create now.
    pub fn path(&self) -> (r: &str)
        ensures
            r@ == self.current(),
    {
        if self.on_fallback {
            self.fallback.as_str()
        } else {
            self.target.as_str()
        }
    }

    /// Takes the system's answer to the attempt on `path()`.
    pub fn step(&mut self, outcome: Access) -> (r: DirStep)
        ensures
            final(self).target@ == old(self).target@,
            final(self).fallback@ == old(self).fallback@,
            (final(self).on_fallback, r) == dir_next(old(self).on_fallback, outcome),
    {
        match outcome {
            Access::Granted => DirStep::Resolved,
            Access::Denied => {
                if self.on_fallback {
                    DirStep::Failed
                } else {
                    self.on_fallback = true;
                    DirStep::Retry
                }
            },
            Access::Failed => DirStep::Failed,
        }
    }

    /// The directory settled on, once `step` has answered `Resolved`.
    pub fn resolved(&self) -> (r: ResolvedDir)
        ensures
            r.path@ == self.current(),
            r.used_fallback == self.on_fallback,
    {
        ResolvedDir { path: owned(self.path()), used_fallback: self.on_fallback }
    }
}

/// Settles on a directory from the answer to a single look at `wanted`:
/// `wanted` itself where the look succeeded, `fallback` where permission
/// was denied, and nothing where the look failed otherwise.
pub fn resolve_or_fallback(wanted: String, fallback: &str, outcome: Access) -> (r: Option<ResolvedDir>)
    ensures
        match outcome {
            Access::Granted => r is Some && r->Some_0.path@ == wanted@ && !r->Some_0.used_fallback,
            Access::Denied => r is Some && r->Some_0.path@ == fallback@ && r->Some_0.used_fallback,
            Access::Failed => r is None,
        },
{
    match outcome {
        Access::Granted => Some(ResolvedDir { path: wanted, used_fallback: false }),
        Access::Denied => Some(ResolvedDir { path: owned(fallback), used_fallback: true }),
        Access::Failed => None,
    }
}

} // verus!
