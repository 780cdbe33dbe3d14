//! The fail-fast executor: steps in a fixed order, one at a time, until one
//! of them fails or none is left.
//!
//! The executor does not run anything. It says which step is due; the caller
//! runs it and records how it ended.

use crate::error::{outcome_view, BuildError, Failure};
use vstd::prelude::*;

verus! {

/// The progress of one run through an ordered list of steps.
#[derive(Debug)]
pub struct Pipeline<S> {
    steps: Vec<S>,
    position: usize,
    failure: Option<BuildError>,
}

/// The mathematical content of a [`Pipeline`].
pub struct PipelineView<S> {
    /// The steps, in the order in which they run.
    pub steps: Seq<S>,
    /// How many steps have succeeded.
    pub position: nat,
    /// The failure that stopped the run, if one did.
    pub failure: Option<Failure>,
}

impl<S> PipelineView<S> {
    /// A run that has not begun.
    pub open spec fn start(steps: Seq<S>) -> PipelineView<S> {
        PipelineView { steps, position: 0, failure: None }
    }

    /// The step that is due: the first that has not run, unless a step has
    /// failed.
    pub open spec fn current(self) -> Option<S> {
        if self.failure.is_none() && self.position < self.steps.len() {
            Some(self.steps[self.position as int])
        } else {
            None
        }
    }

    /// The run after the step that is due has ended with `outcome`. Where no
    /// step is due, nothing changes.
    pub open spec fn record(self, outcome: Result<(), Failure>) -> PipelineView<S> {
        if self.current().is_none() {
            self
        } else {
            match outcome {
                Ok(_) => PipelineView { position: self.position + 1, ..self },
                Err(e) => PipelineView { failure: Some(e), ..self },
            }
        }
    }

    /// How the run ended: the failure that stopped it, or success once every
    /// step has succeeded; `None` while a step is due.
    pub open spec fn result(self) -> Option<Result<(), Failure>> {
        match self.failure {
            Some(e) => Some(Err(e)),
            None => if self.position >= self.steps.len() {
                Some(Ok(()))
            } else {
                None
            },
        }
    }

    /// The run after the outcomes in `outcomes` have been recorded in turn.
    pub open spec fn record_all(self, outcomes: Seq<Result<(), Failure>>) -> PipelineView<S>
        decreases outcomes.len(),
    {
        if outcomes.len() == 0 {
            self
        } else {
            self.record(outcomes[0]).record_all(outcomes.drop_first())
        }
    }
}

impl<S> View for Pipeline<S> {
    type V = PipelineView<S>;

    closed spec fn view(&self) -> PipelineView<S> {
        PipelineView {
            steps: self.steps@,
            position: self.position as nat,
            failure: match self.failure {
                Some(e) => Some(e@),
                None => None,
            },
        }
    }
}

impl<S> Pipeline<S> {
    #[verifier::type_invariant]
    spec fn in_range(self) -> bool {
        self.position <= self.steps.len()
    }
}

impl<S: Copy> Pipeline<S> {
    /// A run through `steps` that has not begun.
    pub fn new(steps: Vec<S>) -> (pipeline: Pipeline<S>)
        ensures
            pipeline@ == PipelineView::start(steps@),
    {
        Pipeline { steps, position: 0, failure: None }
    }

    /// The step to run now, or `None` once the run has ended.
    pub fn current(&self) -> (step: Option<S>)
        ensures
            step == self@.current(),
    {
        proof {
            use_type_invariant(self);
        }
        if self.failure.is_none() && self.position < self.steps.len() {
            Some(self.steps[self.position])
        } else {
            None
        }
    }

    /// Record how the step that was due has ended. A failure ends the run; a
    /// success makes the next step due. Once the run has ended, nothing
    /// changes.
    pub fn record(&mut self, outcome: Result<(), BuildError>)
        ensures
            final(self)@ == old(self)@.record(outcome_view(outcome)),
    {
        proof {
            use_type_invariant(&*self);
        }
        if self.failure.is_none() && self.position < self.steps.len() {
            match outcome {
                Ok(_) => {
                    self.position = self.position + 1;
                },
                Err(e) => {
                    self.failure = Some(e);
                },
            }
        }
    }

    /// How the run ended, or `None` while a step is due.
    pub fn result(&self) -> (r: Option<Result<(), BuildError>>)
        ensures
            r.is_some() == self@.result().is_some(),
            r matches Some(outcome) ==> Some(outcome_view(outcome)) == self@.result(),
    {
        proof {
            use_type_invariant(self);
        }
        match &self.failure {
            Some(e) => Some(Err(e.duplicate())),
            None => if self.position >= self.steps.len() {
                Some(Ok(()))
            } else {
                None
            },
        }
    }
}

/// Once a run has ended, recording further outcomes changes nothing and no
/// step becomes due.
pub proof fn ended_run_stays_ended<S>(run: PipelineView<S>, later: Seq<Result<(), Failure>>)
    requires
        run.current().is_none(),
    ensures
        run.record_all(later) == run,
    decreases later.len(),
{
    if later.len() > 0 {
        ended_run_stays_ended(run, later.drop_first());
    }
}

/// Fail-fast: the failure of the step that is due ends the run with that
/// failure. No step is due after it, whatever is recorded later, so the steps
/// behind the failed one are never run.
pub proof fn failure_ends_run<S>(
    run: PipelineView<S>,
    e: Failure,
    later: Seq<Result<(), Failure>>,
)
    requires
        run.current().is_some(),
    ensures
        run.record(Err(e)).current().is_none(),
        run.record(Err(e)).result() == Some(Err::<(), Failure>(e)),
        run.record(Err(e)).record_all(later).current().is_none(),
        run.record(Err(e)).record_all(later).result() == Some(Err::<(), Failure>(e)),
{
    ended_run_stays_ended(run.record(Err(e)), later);
}

/// The first failure among the outcomes, or success where there is none.
pub open spec fn first_failure(outcomes: Seq<Result<(), Failure>>) -> Result<(), Failure>
    decreases outcomes.len(),
{
    if outcomes.len() == 0 {
        Ok(())
    } else {
        match outcomes[0] {
            Ok(_) => first_failure(outcomes.drop_first()),
            Err(e) => Err(e),
        }
    }
}

/// A run that is given one outcome for each of its steps ends with the first
/// failure among them, and succeeds where none of them is a failure.
pub proof fn run_ends_with_first_failure<S>(steps: Seq<S>, outcomes: Seq<Result<(), Failure>>)
    requires
        outcomes.len() == steps.len(),
    ensures
        PipelineView::start(steps).record_all(outcomes).result() == Some(first_failure(outcomes)),
{
    rest_ends_with_first_failure(PipelineView::start(steps), outcomes);
}

/// A run without a failure that is given one outcome for each step that is
/// left ends with the first failure among them.
proof fn rest_ends_with_first_failure<S>(run: PipelineView<S>, outcomes: Seq<Result<(), Failure>>)
    requires
        run.failure.is_none(),
        run.position + outcomes.len() == run.steps.len(),
    ensures
        run.record_all(outcomes).result() == Some(first_failure(outcomes)),
    decreases outcomes.len(),
{
    if outcomes.len() > 0 {
        match outcomes[0] {
            Ok(_) => {
                rest_ends_with_first_failure(run.record(outcomes[0]), outcomes.drop_first());
            },
            Err(e) => {
                ended_run_stays_ended(run.record(outcomes[0]), outcomes.drop_first());
            },
        }
    }
}

/// Order: after `done` successes a fresh run offers the step at position
/// `done`, and after as many successes as there are steps it has succeeded.
pub proof fn steps_run_in_order<S>(steps: Seq<S>, done: nat)
    requires
        done <= steps.len(),
    ensures
        ({
            let run = PipelineView::start(steps).record_all(Seq::new(done, |i: int| Ok(())));
            &&& run.position == done
            &&& run.failure.is_none()
            &&& run.steps == steps
            &&& done < steps.len() ==> run.current() == Some(steps[done as int])
            &&& done == steps.len() ==> run.result() == Some(Ok::<(), Failure>(()))
        }),
{
    successes_advance(PipelineView::start(steps), done);
}

/// Recording `count` successes on a run with at least that many steps left
/// moves it forward by `count`.
proof fn successes_advance<S>(run: PipelineView<S>, count: nat)
    requires
        run.failure.is_none(),
        run.position + count <= run.steps.len(),
    ensures
        run.record_all(Seq::new(count, |i: int| Ok(()))) == (PipelineView {
            position: run.position + count,
            ..run
        }),
    decreases count,
{
    let all = Seq::new(count, |i: int| Ok::<(), Failure>(()));
    if count > 0 {
        let rest = Seq::new((count - 1) as nat, |i: int| Ok::<(), Failure>(()));
        assert(all.drop_first() =~= rest);
        successes_advance(run.record(Ok(())), (count - 1) as nat);
    }
}

} // verus!
