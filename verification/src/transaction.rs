//! Carrying out a list of effects one at a time.
//!
//! The driver cannot touch the bus, so the owner of the bus performs each
//! effect and reports how it went. A [`Transaction`] decides from those
//! reports what happens next: the following effect, the end, or, after the
//! first failure, nothing more.

use vstd::prelude::*;
use crate::protocol::Effect;

verus! {

/// Where a transaction stands.
#[derive(Clone, Copy, Debug, PartialEq, Eq, Structural)]
pub enum Progress {
    /// An effect has been handed out and its outcome is awaited.
    Awaiting,
    /// Every effect completed.
    Finished,
    /// An effect failed; the effects after it were never handed out.
    Aborted,
}

/// How the effect that was handed out last went.
#[derive(Clone, Copy, Debug, PartialEq, Eq, Structural)]
pub enum Outcome {
    Completed,
    Failed,
}

/// What the owner of the bus has to do next.
#[derive(Clone, Copy, Debug, PartialEq, Eq, Structural)]
pub enum Action {
    /// Perform this effect, then report its outcome.
    Perform(Effect),
    /// Nothing is left to do: every effect completed.
    Finish,
    /// Stop: the effect at index `step` failed.
    Abort { step: usize },
}

/// The one error of the driver: a transfer that the bus did not complete.
#[derive(Clone, Copy, Debug, PartialEq, Eq, Structural)]
pub struct TransportFailure {
    /// Index, in the list of effects, of the effect that failed.
    pub step: usize,
}

/// The state of a transaction as plain values.
pub struct Run {
    /// The effects to carry out, in order.
    pub plan: Seq<Effect>,
    /// How many effects have completed.
    pub position: nat,
    /// Whether the effect at `position` failed.
    pub failed: bool,
}

impl Run {
    /// The state before anything was performed.
    pub open spec fn begin(plan: Seq<Effect>) -> Run {
        Run { plan, position: 0, failed: false }
    }

    pub open spec fn wf(self) -> bool {
        &&& self.position <= self.plan.len()
        &&& self.failed ==> self.position < self.plan.len()
    }

    pub open spec fn progress(self) -> Progress {
        if self.failed {
            Progress::Aborted
        } else if self.position < self.plan.len() {
            Progress::Awaiting
        } else {
            Progress::Finished
        }
    }

    /// What is to be done in this state.
    pub open spec fn action(self) -> Action {
        match self.progress() {
            Progress::Awaiting => Action::Perform(self.plan[self.position as int]),
            Progress::Finished => Action::Finish,
            Progress::Aborted => Action::Abort { step: self.position as usize },
        }
    }

    /// The state after an outcome is reported. Only an awaited outcome counts.
    pub open spec fn advance(self, outcome: Outcome) -> Run {
        match (self.progress(), outcome) {
            (Progress::Awaiting, Outcome::Completed) => Run {
                position: self.position + 1,
                ..self
            },
            (Progress::Awaiting, Outcome::Failed) => Run { failed: true, ..self },
            _ => self,
        }
    }

    /// The state after a series of outcomes is reported, first to last.
    pub open spec fn run(self, outcomes: Seq<Outcome>) -> Run
        decreases outcomes.len(),
    {
        if outcomes.len() == 0 {
            self
        } else {
            self.advance(outcomes[0]).run(outcomes.drop_first())
        }
    }

    /// The effects handed out so far, the awaited or failed one included.
    pub open spec fn attempted(self) -> Seq<Effect> {
        match self.progress() {
            Progress::Finished => self.plan,
            _ => self.plan.take(self.position as int + 1),
        }
    }

    /// The effects that completed.
    pub open spec fn completed(self) -> Seq<Effect> {
        self.plan.take(self.position as int)
    }

    /// `None` while an outcome is awaited, then how the transaction ended.
    pub open spec fn result(self) -> Option<Result<(), TransportFailure>> {
        match self.progress() {
            Progress::Awaiting => None,
            Progress::Finished => Some(Ok(())),
            Progress::Aborted => Some(Err(TransportFailure { step: self.position as usize })),
        }
    }
}

/// A list of effects being carried out.
pub struct Transaction {
    plan: Vec<Effect>,
    position: usize,
    failed: bool,
}

impl View for Transaction {
    type V = Run;

    closed spec fn view(&self) -> Run {
        Run { plan: self.plan@, position: self.position as nat, failed: self.failed }
    }
}

impl Transaction {
    #[verifier::type_invariant]
    spec fn inv(self) -> bool {
        self@.wf()
    }

    /// Starts carrying out `plan`. Nothing has been performed yet.
    pub fn begin(plan: Vec<Effect>) -> (t: Self)
        ensures
            t@ == Run::begin(plan@),
            t@.wf(),
    {
        Transaction { plan, position: 0, failed: false }
    }

    /// Where the transaction stands.
    pub fn progress(&self) -> (p: Progress)
        ensures
            p == self@.progress(),
            self@.wf(),
    {
        proof {
            use_type_invariant(self);
        }
        if self.failed {
            Progress::Aborted
        } else if self.position < self.plan.len() {
            Progress::Awaiting
        } else {
            Progress::Finished
        }
    }

    /// What is to be done now.
    pub fn action(&self) -> (a: Action)
        ensures
            a == self@.action(),
            self@.wf(),
    {
        proof {
            use_type_invariant(self);
        }
        match self.progress() {
            Progress::Awaiting => Action::Perform(self.plan[self.position]),
            Progress::Finished => Action::Finish,
            Progress::Aborted => Action::Abort { step: self.position },
        }
    }

    /// Takes the outcome of the effect handed out last and says what is to be
    /// done next. After a failure no further effect is ever handed out.
    pub fn advance(&mut self, outcome: Outcome) -> (a: Action)
        ensures
            final(self)@ == old(self)@.advance(outcome),
            a == final(self)@.action(),
            final(self)@.wf(),
    {
        proof {
            use_type_invariant(&*self);
        }
        let steps: usize = self.plan.len();
        match self.progress() {
            Progress::Awaiting => {
                match outcome {
                    Outcome::Completed => {
                        assert(self.position < steps);
                        self.position = self.position + 1;
                    },
                    Outcome::Failed => {
                        self.failed = true;
                    },
                }
            },
            _ => {},
        }
        self.action()
    }

    /// Takes a series of outcomes, first to last, as `advance` would take
    /// them one by one, and says what is to be done after the last.
    pub fn advance_all(&mut self, outcomes: &[Outcome]) -> (a: Action)
        ensures
            final(self)@ == old(self)@.run(outcomes@),
            a == final(self)@.action(),
            final(self)@.wf(),
    {
        let ghost start = self@;
        let mut i: usize = 0;
        assert(outcomes@.skip(0) =~= outcomes@);
        while i < outcomes.len()
            invariant
                i <= outcomes.len(),
                self@.run(outcomes@.skip(i as int)) == start.run(outcomes@),
            decreases outcomes.len() - i,
        {
            proof {
                let rest = outcomes@.skip(i as int);
                assert(rest[0] == outcomes@[i as int]);
                assert(rest.drop_first() =~= outcomes@.skip(i + 1));
            }
            self.advance(outcomes[i]);
            i += 1;
        }
        self.action()
    }

    /// How many effects have completed.
    pub fn completed(&self) -> (n: usize)
        ensures
            n == self@.position,
            n == self@.completed().len(),
            self@.wf(),
    {
        proof {
            use_type_invariant(self);
        }
        self.position
    }

    /// `None` while an outcome is awaited; then `Ok` if every effect
    /// completed, or the step at which the transport failed.
    pub fn result(&self) -> (r: Option<Result<(), TransportFailure>>)
        ensures
            r == self@.result(),
            self@.wf(),
    {
        match self.progress() {
            Progress::Awaiting => None,
            Progress::Finished => Some(Ok(())),
            Progress::Aborted => Some(Err(TransportFailure { step: self.position })),
        }
    }
}

} // verus!
