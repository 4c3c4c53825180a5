use crate::error::StepError;
use vstd::prelude::*;

verus! {

/// How far a run over a list of steps has come. Steps run one after the
/// other, and the first failure ends the run.
#[derive(Debug)]
pub struct Run {
    total: usize,
    cursor: usize,
    failure: Option<StepError>,
}

impl Run {
    /// The number of steps of the run.
    pub closed spec fn total(&self) -> nat {
        self.total as nat
    }

    /// The number of steps that ended well.
    pub closed spec fn completed(&self) -> nat {
        self.cursor as nat
    }

    /// The failure that ended the run, if one did.
    pub closed spec fn ended_by(&self) -> Option<StepError> {
        self.failure
    }

    /// Whether a step failed.
    pub open spec fn failed(&self) -> bool {
        self.ended_by() is Some
    }

    /// The step to run now, if the run is not over.
    pub open spec fn pending(&self) -> Option<nat> {
        if !self.failed() && self.completed() < self.total() {
            Some(self.completed())
        } else {
            None
        }
    }

    #[verifier::type_invariant]
    closed spec fn well_formed(&self) -> bool {
        self.cursor <= self.total
    }

    /// A run over `total` steps, of which none has run.
    pub fn new(total: usize) -> (run: Self)
        ensures
            run.total() == total,
            run.completed() == 0,
            run.ended_by() is None,
    {
        Run { total, cursor: 0, failure: None }
    }

    /// The index of the step to run now; none once every step ended well
    /// or one failed.
    pub fn next_step(&self) -> (next: Option<usize>)
        ensures
            match next {
                Some(i) => self.pending() == Some(i as nat),
                None => self.pending() is None,
            },
    {
        if self.failure.is_none() && self.cursor < self.total {
            Some(self.cursor)
        } else {
            None
        }
    }

    /// Takes note of how the pending step ended. After a success the next
    /// step is pending; after a failure none is, ever. Where no step is
    /// pending, nothing changes.
    pub fn record(&mut self, outcome: Result<(), StepError>)
        ensures
            final(self).total() == old(self).total(),
            old(self).pending() is None ==> final(self).completed() == old(self).completed()
                && final(self).ended_by() == old(self).ended_by(),
            old(self).pending() is Some && outcome is Ok ==> final(self).completed() == old(
                self,
            ).completed() + 1 && final(self).ended_by() is None,
            old(self).pending() is Some ==> (outcome matches Err(e) ==> final(self).completed()
                == old(self).completed() && final(self).ended_by() == Some(e)),
            old(self).failed() ==> final(self).pending() is None,
    {
        proof {
            use_type_invariant(&*self);
        }
        if self.failure.is_none() && self.cursor < self.total {
            match outcome {
                Ok(_) => {
                    self.cursor = self.cursor + 1;
                },
                Err(e) => {
                    self.failure = Some(e);
                },
            }
        }
    }

    /// The failure that ended the run, if one did.
    pub fn failure(&self) -> (failure: Option<&StepError>)
        ensures
            match failure {
                Some(e) => self.ended_by() == Some(*e),
                None => self.ended_by() is None,
            },
    {
        self.failure.as_ref()
    }

    /// Whether every step ended well.
    pub fn is_complete(&self) -> (b: bool)
        ensures
            b == (!self.failed() && self.completed() == self.total()),
    {
        proof {
            use_type_invariant(self);
        }
        self.failure.is_none() && self.cursor == self.total
    }

    /// The exit code of the program: zero unless a step failed.
    pub fn exit_code(&self) -> (code: i32)
        ensures
            code == if self.failed() { 1i32 } else { 0i32 },
    {
        if self.failure.is_some() {
            1
        } else {
            0
        }
    }
}

} // verus!
