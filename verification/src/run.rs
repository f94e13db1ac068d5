//! Carrying a schedule out: which step is due, and what becomes of the run
//! when the outside world reports on it.
//!
//! The steps themselves (waiting, handing a key to the sink) are done by the
//! caller. After each it reports the outcome, and the run decides what
//! follows: the next step, or nothing more. A step that could not be
//! delivered aborts the run and an interruption cancels it; neither is tried
//! again or passed over.

use crate::action::Step;
use vstd::prelude::*;

verus! {

/// What became of the step that was due.
#[derive(Clone, Copy, Debug, PartialEq, Eq, Structural)]
pub enum Outcome {
    /// The step was carried out.
    Delivered,
    /// The sink could not deliver the key.
    Failed,
    /// The operator interrupted the run before the step was carried out.
    Interrupted,
}

/// Where a run stands.
#[derive(Clone, Copy, Debug, PartialEq, Eq, Structural)]
pub enum Status {
    /// A step is due.
    Running,
    /// Every step was carried out.
    Completed,
    /// A step could not be delivered; the rest was given up.
    Aborted,
    /// The operator interrupted the run; the rest was given up.
    Cancelled,
}

/// A run, as a mathematical value: the steps to carry out, how many of them
/// are carried out, and where the run stands.
pub struct Progress {
    pub steps: Seq<Step>,
    pub position: nat,
    pub status: Status,
}

impl Progress {
    /// A run is running exactly as long as steps are left and nothing went
    /// wrong, and completed only when none is left.
    pub open spec fn valid(self) -> bool {
        &&& self.position <= self.steps.len()
        &&& self.status == Status::Running ==> self.position < self.steps.len()
        &&& self.status == Status::Completed ==> self.position == self.steps.len()
    }

    /// The run of `steps` before any of them is carried out.
    pub open spec fn start(steps: Seq<Step>) -> Progress {
        Progress {
            steps,
            position: 0,
            status: if steps.len() == 0 {
                Status::Completed
            } else {
                Status::Running
            },
        }
    }

    /// The step that is due, if the run is running.
    pub open spec fn due(self) -> Option<Step> {
        if self.status == Status::Running {
            Some(self.steps[self.position as int])
        } else {
            None
        }
    }

    /// The steps carried out so far.
    pub open spec fn delivered(self) -> Seq<Step> {
        self.steps.take(self.position as int)
    }

    /// The run after `outcome` is reported for the step that was due. A run
    /// that is not running stays as it is.
    pub open spec fn after(self, outcome: Outcome) -> Progress {
        if self.status != Status::Running {
            self
        } else {
            match outcome {
                Outcome::Delivered => Progress {
                    steps: self.steps,
                    position: self.position + 1,
                    status: if self.position + 1 == self.steps.len() {
                        Status::Completed
                    } else {
                        Status::Running
                    },
                },
                Outcome::Failed => Progress { status: Status::Aborted, ..self },
                Outcome::Interrupted => Progress { status: Status::Cancelled, ..self },
            }
        }
    }

    /// The run after the outcomes of `outcomes` are reported one after the
    /// other.
    pub open spec fn after_all(self, outcomes: Seq<Outcome>) -> Progress
        decreases outcomes.len(),
    {
        if outcomes.len() == 0 {
            self
        } else {
            self.after_all(outcomes.drop_last()).after(outcomes.last())
        }
    }
}

/// A schedule that is being carried out.
#[derive(Debug)]
pub struct Run {
    steps: Vec<Step>,
    position: usize,
    status: Status,
}

impl View for Run {
    type V = Progress;

    closed spec fn view(&self) -> Progress {
        Progress { steps: self.steps@, position: self.position as nat, status: self.status }
    }
}

impl Run {
    /// Every run is a valid one.
    #[verifier::type_invariant]
    pub open spec fn well_formed(&self) -> bool {
        self@.valid()
    }

    /// Starts a run of `steps`.
    pub fn new(steps: Vec<Step>) -> (run: Run)
        ensures
            run@ == Progress::start(steps@),
    {
        let status = if steps.len() == 0 {
            Status::Completed
        } else {
            Status::Running
        };
        Run { steps, position: 0, status }
    }

    /// The step to carry out now, or `None` where the run is over.
    pub fn next_step(&self) -> (step: Option<Step>)
        ensures
            step == self@.due(),
    {
        proof {
            use_type_invariant(self);
        }
        match self.status {
            Status::Running => Some(self.steps[self.position]),
            _ => None,
        }
    }

    /// Takes note of what became of the step that was due. A delivered step
    /// moves the run on to the next, or completes it; a failed delivery
    /// aborts it and an interruption cancels it. A run that is over stays as
    /// it is.
    pub fn after(self, outcome: Outcome) -> (next: Run)
        ensures
            next@ == self@.after(outcome),
    {
        proof {
            use_type_invariant(&self);
        }
        let length = self.steps.len();
        match self.status {
            Status::Running => match outcome {
                Outcome::Delivered => {
                    let position = self.position + 1;
                    let status = if position == length {
                        Status::Completed
                    } else {
                        Status::Running
                    };
                    Run { steps: self.steps, position, status }
                },
                Outcome::Failed => Run {
                    steps: self.steps,
                    position: self.position,
                    status: Status::Aborted,
                },
                Outcome::Interrupted => Run {
                    steps: self.steps,
                    position: self.position,
                    status: Status::Cancelled,
                },
            },
            _ => self,
        }
    }

    /// Where the run stands.
    pub fn status(&self) -> (status: Status)
        ensures
            status == self@.status,
    {
        self.status
    }

    /// How many steps are carried out.
    pub fn delivered(&self) -> (count: usize)
        ensures
            count == self@.position,
            count == self@.delivered().len(),
    {
        proof {
            use_type_invariant(self);
        }
        self.position
    }
}

/// Whatever is reported, a run stays valid, its steps stay the same, and
/// what was carried out stays carried out.
pub proof fn lemma_after_keeps_valid(run: Progress, outcome: Outcome)
    requires
        run.valid(),
    ensures
        run.after(outcome).valid(),
        run.after(outcome).steps == run.steps,
        run.after(outcome).position >= run.position,
{
}

/// A run that is over stays as it is, whatever is reported to it: nothing is
/// tried again and nothing follows.
pub proof fn lemma_over_is_over(run: Progress, outcomes: Seq<Outcome>)
    requires
        run.status != Status::Running,
    ensures
        run.after_all(outcomes) == run,
        run.after_all(outcomes).due() is None,
    decreases outcomes.len(),
{
    if outcomes.len() > 0 {
        lemma_over_is_over(run, outcomes.drop_last());
    }
}

/// As long as every step is delivered, the run carries out one step per
/// report, in order, and is completed exactly when all are carried out.
pub proof fn lemma_delivered_in_order(steps: Seq<Step>, outcomes: Seq<Outcome>)
    requires
        outcomes.len() <= steps.len(),
        forall|i: int| 0 <= i < outcomes.len() ==> outcomes[i] == Outcome::Delivered,
    ensures
        Progress::start(steps).after_all(outcomes).position == outcomes.len(),
        Progress::start(steps).after_all(outcomes).steps == steps,
        Progress::start(steps).after_all(outcomes).status == if outcomes.len() == steps.len() {
            Status::Completed
        } else {
            Status::Running
        },
    decreases outcomes.len(),
{
    if outcomes.len() > 0 {
        lemma_delivered_in_order(steps, outcomes.drop_last());
    }
}

/// The first step that is not delivered ends the run, whatever is reported
/// after it: the steps before it are carried out, it and all that follow are
/// not. A failed delivery leaves the run aborted, an interruption cancelled.
pub proof fn lemma_first_failure_ends_run(steps: Seq<Step>, outcomes: Seq<Outcome>, k: int)
    requires
        0 <= k < outcomes.len(),
        k < steps.len(),
        forall|i: int| 0 <= i < k ==> outcomes[i] == Outcome::Delivered,
        outcomes[k] != Outcome::Delivered,
    ensures
        Progress::start(steps).after_all(outcomes).position == k,
        Progress::start(steps).after_all(outcomes).delivered() == steps.take(k),
        Progress::start(steps).after_all(outcomes).due() is None,
        Progress::start(steps).after_all(outcomes).status == if outcomes[k] == Outcome::Failed {
            Status::Aborted
        } else {
            Status::Cancelled
        },
    decreases outcomes.len(),
{
    let start = Progress::start(steps);
    let before = outcomes.drop_last();
    if k == outcomes.len() - 1 {
        lemma_delivered_in_order(steps, before);
    } else {
        lemma_first_failure_ends_run(steps, before, k);
    }
}

} // verus!
