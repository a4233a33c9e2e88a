//! The order of native calls that enqueueing an execution makes: bind every
//! supplied tensor address in turn, then submit; stop at the first failure.
use vstd::prelude::*;
use crate::error::Failure;

verus! {

/// The next native call an enqueue run asks for, or its result.
#[derive(Copy, Clone, Debug, PartialEq, Eq, Structural)]
pub enum EnqueueStep {
    /// Bind the address of the tensor at this position of the request.
    Bind { index: usize },
    /// Submit the execution to the stream.
    Submit,
    /// Every bind and the submission succeeded.
    Done,
    /// The run stopped at a failed native call.
    Failed { failure: Failure },
}

/// Progress of one enqueue request over `total` tensors.
///
/// A failed bind is not rolled back: the bindings made before it stay, and
/// callers re-bind before retrying.
pub struct Enqueue {
    total: usize,
    bound: usize,
    submitted: bool,
    failure: Option<Failure>,
}

impl Enqueue {
    /// Number of tensors the request binds.
    pub closed spec fn total(&self) -> nat {
        self.total as nat
    }

    /// Number of binds that have succeeded.
    pub closed spec fn bound(&self) -> nat {
        self.bound as nat
    }

    /// Whether the submission succeeded.
    pub closed spec fn submitted(&self) -> bool {
        self.submitted
    }

    /// The failure that ended the run, if any.
    pub closed spec fn failure(&self) -> Option<Failure> {
        self.failure
    }

    /// Internal consistency of a run.
    pub closed spec fn wf(&self) -> bool {
        &&& self.bound <= self.total
        &&& self.submitted ==> self.bound == self.total && self.failure.is_none()
    }

    /// The step a run in this state asks for.
    pub open spec fn step(&self) -> EnqueueStep {
        if self.failure().is_some() {
            EnqueueStep::Failed { failure: self.failure()->0 }
        } else if self.submitted() {
            EnqueueStep::Done
        } else if self.bound() < self.total() {
            EnqueueStep::Bind { index: self.bound() as usize }
        } else {
            EnqueueStep::Submit
        }
    }

    /// A run over `total` tensors that has made no native call yet.
    pub fn new(total: usize) -> (r: Enqueue)
        ensures
            r.wf(),
            r.total() == total,
            r.bound() == 0,
            !r.submitted(),
            r.failure().is_none(),
    {
        Enqueue { total, bound: 0, submitted: false, failure: None }
    }

    /// The next native call to make, or the run's result.
    pub fn next_step(&self) -> (r: EnqueueStep)
        requires
            self.wf(),
        ensures
            r == self.step(),
    {
        if let Some(f) = self.failure {
            EnqueueStep::Failed { failure: f }
        } else if self.submitted {
            EnqueueStep::Done
        } else if self.bound < self.total {
            EnqueueStep::Bind { index: self.bound }
        } else {
            EnqueueStep::Submit
        }
    }

    /// Records whether the bind that was asked for succeeded.
    pub fn on_bind(&mut self, success: bool)
        requires
            old(self).wf(),
            old(self).step() is Bind,
        ensures
            final(self).wf(),
            final(self).total() == old(self).total(),
            !final(self).submitted(),
            success ==> final(self).bound() == old(self).bound() + 1
                && final(self).failure().is_none(),
            !success ==> final(self).bound() == old(self).bound()
                && final(self).failure() == Some(Failure::CallFailed),
    {
        if success {
            self.bound = self.bound + 1;
        } else {
            self.failure = Some(Failure::CallFailed);
        }
    }

    /// Records whether the submission succeeded.
    pub fn on_submit(&mut self, success: bool)
        requires
            old(self).wf(),
            old(self).step() is Submit,
        ensures
            final(self).wf(),
            final(self).total() == old(self).total(),
            final(self).bound() == old(self).bound(),
            success ==> final(self).submitted() && final(self).failure().is_none(),
            !success ==> !final(self).submitted() && final(self).failure() == Some(
                Failure::CallFailed,
            ),
    {
        if success {
            self.submitted = true;
        } else {
            self.failure = Some(Failure::CallFailed);
        }
    }
}

} // verus!
