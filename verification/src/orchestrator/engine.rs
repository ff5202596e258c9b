//! The decisions of a saga run, apart from the steps' own (asynchronous) work.
//!
//! A run is driven by its caller: it asks the run for the next action,
//! performs it (executes or compensates a step), and reports the outcome.

use vstd::prelude::*;

verus! {

/// A named, ordered list of saga steps.
pub struct SagaOrchestrator<S> {
    saga_name: &'static str,
    steps: Vec<S>,
}

impl<S> SagaOrchestrator<S> {
    /// The saga's name.
    pub closed spec fn name_spec(&self) -> Seq<char> {
        self.saga_name@
    }

    /// The steps, in the order they run.
    pub closed spec fn steps_spec(&self) -> Seq<S> {
        self.steps@
    }

    /// A saga with the given name and no steps.
    pub fn new(saga_name: &'static str) -> (r: Self)
        ensures
            r.name_spec() == saga_name@,
            r.steps_spec() == Seq::<S>::empty(),
    {
        SagaOrchestrator { saga_name, steps: Vec::new() }
    }

    /// The same saga with `s` added as its last step.
    pub fn step(self, s: S) -> (r: Self)
        ensures
            r.name_spec() == self.name_spec(),
            r.steps_spec() == self.steps_spec().push(s),
    {
        let mut steps = self.steps;
        steps.push(s);
        SagaOrchestrator { saga_name: self.saga_name, steps }
    }

    /// The saga's name.
    pub fn saga_name(&self) -> (r: &'static str)
        ensures
            r@ == self.name_spec(),
    {
        self.saga_name
    }

    /// The steps, in the order they run.
    pub fn steps(&self) -> (r: &Vec<S>)
        ensures
            r@ == self.steps_spec(),
    {
        &self.steps
    }
}

/// What the driver of a saga run must do next.
#[derive(Clone, Copy, Debug, PartialEq, Eq, Structural)]
pub enum SagaAction {
    /// Execute the step at this index.
    Execute(usize),
    /// Compensate the step at this index.
    Compensate(usize),
    /// Every step succeeded: the run answers `Ok`.
    Succeeded,
    /// The step at this index failed (and the earlier ones have been
    /// compensated): the run answers with that step's error.
    Failed(usize),
}

/// Where a run stands.
pub enum SagaPhaseView {
    /// Steps `0 .. done` succeeded; step `done` is running.
    Forward { done: nat },
    /// Step `failed` failed; the executed steps `0 .. left` still have to be
    /// compensated, newest first.
    RollingBack { failed: nat, left: nat },
    /// The run is over; `failure` is the step that failed, if one did.
    Finished { failure: Option<nat> },
}

/// The mathematical state of a run over `total` steps.
pub struct SagaRunView {
    pub total: nat,
    pub phase: SagaPhaseView,
}

/// The state in which a run over `total` steps begins.
pub open spec fn saga_start(total: nat) -> SagaRunView {
    if total == 0 {
        SagaRunView { total, phase: SagaPhaseView::Finished { failure: None } }
    } else {
        SagaRunView { total, phase: SagaPhaseView::Forward { done: 0 } }
    }
}

/// The action a run in state `v` asks for.
pub open spec fn saga_action(v: SagaRunView) -> SagaAction {
    match v.phase {
        SagaPhaseView::Forward { done } => SagaAction::Execute(done as usize),
        SagaPhaseView::RollingBack { failed, left } => SagaAction::Compensate((left - 1) as usize),
        SagaPhaseView::Finished { failure } => match failure {
            Some(f) => SagaAction::Failed(f as usize),
            None => SagaAction::Succeeded,
        },
    }
}

/// The state after the action of `v` has been carried out, `ok` telling
/// whether it succeeded. A failed compensation does not stop the rollback.
pub open spec fn saga_advance(v: SagaRunView, ok: bool) -> SagaRunView {
    match v.phase {
        SagaPhaseView::Forward { done } => if ok {
            if done + 1 < v.total {
                SagaRunView { total: v.total, phase: SagaPhaseView::Forward { done: done + 1 } }
            } else {
                SagaRunView { total: v.total, phase: SagaPhaseView::Finished { failure: None } }
            }
        } else if done == 0 {
            SagaRunView { total: v.total, phase: SagaPhaseView::Finished { failure: Some(done) } }
        } else {
            SagaRunView {
                total: v.total,
                phase: SagaPhaseView::RollingBack { failed: done, left: done },
            }
        },
        SagaPhaseView::RollingBack { failed, left } => if left <= 1 {
            SagaRunView { total: v.total, phase: SagaPhaseView::Finished { failure: Some(failed) } }
        } else {
            SagaRunView {
                total: v.total,
                phase: SagaPhaseView::RollingBack { failed, left: (left - 1) as nat },
            }
        },
        SagaPhaseView::Finished { failure } => v,
    }
}

/// Whether a run state can arise: indices stay below the number of steps,
/// and a rollback always has something left to compensate.
pub open spec fn saga_state_ok(v: SagaRunView) -> bool {
    match v.phase {
        SagaPhaseView::Forward { done } => done < v.total,
        SagaPhaseView::RollingBack { failed, left } => 0 < left && left <= failed && failed
            < v.total,
        SagaPhaseView::Finished { failure } => match failure {
            Some(f) => f < v.total,
            None => true,
        },
    }
}

/// Whether the run is over.
pub open spec fn saga_finished(v: SagaRunView) -> bool {
    v.phase is Finished
}

enum SagaPhase {
    Forward,
    RollingBack { failed: usize },
    Finished { failure: Option<usize> },
}

/// The state of one run of a saga over a fixed number of steps.
pub struct SagaRun {
    total: usize,
    /// Indices of the steps that have succeeded, in the order they ran.
    executed: Vec<usize>,
    /// In a rollback: how many of `executed` are still to be compensated.
    left: usize,
    phase: SagaPhase,
}

impl View for SagaRun {
    type V = SagaRunView;

    closed spec fn view(&self) -> SagaRunView {
        SagaRunView {
            total: self.total as nat,
            phase: match self.phase {
                SagaPhase::Forward => SagaPhaseView::Forward { done: self.executed@.len() },
                SagaPhase::RollingBack { failed } => SagaPhaseView::RollingBack {
                    failed: failed as nat,
                    left: self.left as nat,
                },
                SagaPhase::Finished { failure } => SagaPhaseView::Finished {
                    failure: match failure {
                        Some(f) => Some(f as nat),
                        None => None,
                    },
                },
            },
        }
    }
}

impl SagaRun {
    /// The run's internal bookkeeping agrees with its view: the executed
    /// steps are exactly `0, 1, ...` in order.
    pub closed spec fn wf(&self) -> bool {
        &&& forall|j: int| 0 <= j < self.executed@.len() ==> self.executed@[j] == j
        &&& saga_state_ok(self@)
        &&& match self.phase {
            SagaPhase::RollingBack { failed } => self.executed@.len() == failed && self.left
                <= self.executed@.len(),
            _ => true,
        }
    }

    /// Starts a run over `total` steps and returns it with its first action.
    pub fn start(total: usize) -> (r: (SagaRun, SagaAction))
        ensures
            r.0.wf(),
            r.0@ == saga_start(total as nat),
            r.1 == saga_action(r.0@),
    {
        let run = if total == 0 {
            SagaRun {
                total,
                executed: Vec::new(),
                left: 0,
                phase: SagaPhase::Finished { failure: None },
            }
        } else {
            SagaRun { total, executed: Vec::new(), left: 0, phase: SagaPhase::Forward }
        };
        let a = run.action();
        (run, a)
    }

    /// The action the run asks for now.
    pub fn action(&self) -> (a: SagaAction)
        requires
            self.wf(),
        ensures
            a == saga_action(self@),
    {
        match self.phase {
            SagaPhase::Forward => SagaAction::Execute(self.executed.len()),
            SagaPhase::RollingBack { failed: _ } => SagaAction::Compensate(
                self.executed[self.left - 1],
            ),
            SagaPhase::Finished { failure } => match failure {
                Some(f) => SagaAction::Failed(f),
                None => SagaAction::Succeeded,
            },
        }
    }

    /// Records the outcome of the action just carried out and returns the next one.
    pub fn report(&mut self, ok: bool) -> (a: SagaAction)
        requires
            old(self).wf(),
        ensures
            final(self).wf(),
            final(self)@ == saga_advance(old(self)@, ok),
            a == saga_action(final(self)@),
    {
        match self.phase {
            SagaPhase::Forward => {
                let done = self.executed.len();
                if ok {
                    self.executed.push(done);
                    if done + 1 < self.total {
                        self.phase = SagaPhase::Forward;
                    } else {
                        self.phase = SagaPhase::Finished { failure: None };
                    }
                } else if done == 0 {
                    self.phase = SagaPhase::Finished { failure: Some(done) };
                } else {
                    self.left = done;
                    self.phase = SagaPhase::RollingBack { failed: done };
                }
            },
            SagaPhase::RollingBack { failed } => {
                if self.left <= 1 {
                    self.left = 0;
                    self.phase = SagaPhase::Finished { failure: Some(failed) };
                } else {
                    self.left = self.left - 1;
                }
            },
            SagaPhase::Finished { failure: _ } => {},
        }
        self.action()
    }

    /// Whether the run is over.
    pub fn is_finished(&self) -> (r: bool)
        ensures
            r == saga_finished(self@),
    {
        match self.phase {
            SagaPhase::Finished { failure: _ } => true,
            _ => false,
        }
    }
}

/// The state after `n` actions of a run that all succeed.
pub open spec fn saga_after_successes(v: SagaRunView, n: nat) -> SagaRunView
    decreases n,
{
    if n == 0 {
        v
    } else {
        saga_after_successes(saga_advance(v, true), (n - 1) as nat)
    }
}

/// The state after `n` compensations, whatever their outcomes.
pub open spec fn saga_after_compensations(v: SagaRunView, outcomes: Seq<bool>) -> SagaRunView
    decreases outcomes.len(),
{
    if outcomes.len() == 0 {
        v
    } else {
        saga_after_compensations(saga_advance(v, outcomes[0]), outcomes.drop_first())
    }
}

proof fn lemma_forward_prefix(total: nat, j: nat)
    requires
        j < total,
    ensures
        saga_after_successes(saga_start(total), j) == (SagaRunView {
            total,
            phase: SagaPhaseView::Forward { done: j },
        }),
    decreases j,
{
    if j > 0 {
        lemma_forward_prefix(total, (j - 1) as nat);
        lemma_successes_split(saga_start(total), (j - 1) as nat);
    }
}

proof fn lemma_successes_split(v: SagaRunView, n: nat)
    ensures
        saga_after_successes(v, n + 1) == saga_advance(saga_after_successes(v, n), true),
    decreases n,
{
    reveal_with_fuel(saga_after_successes, 2);
    if n > 0 {
        lemma_successes_split(saga_advance(v, true), (n - 1) as nat);
        assert(saga_after_successes(v, n) == saga_after_successes(saga_advance(v, true), (n - 1) as nat));
    }
}

/// When every step succeeds, a run over `total` steps executes steps
/// `0, 1, ..., total - 1` in that order, compensates nothing, and succeeds.
pub proof fn lemma_saga_all_steps_succeed(total: nat, j: nat)
    ensures
        j < total ==> saga_action(saga_after_successes(saga_start(total), j)) == SagaAction::Execute(
            j as usize,
        ),
        saga_action(saga_after_successes(saga_start(total), total)) == SagaAction::Succeeded,
{
    if j < total {
        lemma_forward_prefix(total, j);
    }
    if total > 0 {
        lemma_forward_prefix(total, (total - 1) as nat);
        lemma_successes_split(saga_start(total), (total - 1) as nat);
    }
}

proof fn lemma_rollback_progress(failed: nat, left: nat, total: nat, outcomes: Seq<bool>)
    requires
        0 < left <= failed < total,
        outcomes.len() < left,
    ensures
        saga_after_compensations(
            SagaRunView { total, phase: SagaPhaseView::RollingBack { failed, left } },
            outcomes,
        ) == (SagaRunView {
            total,
            phase: SagaPhaseView::RollingBack { failed, left: (left - outcomes.len()) as nat },
        }),
    decreases outcomes.len(),
{
    if outcomes.len() > 0 {
        lemma_rollback_progress(failed, (left - 1) as nat, total, outcomes.drop_first());
    }
}

proof fn lemma_rollback_end(failed: nat, left: nat, total: nat, outcomes: Seq<bool>)
    requires
        0 < left <= failed < total,
        outcomes.len() == left,
    ensures
        saga_after_compensations(
            SagaRunView { total, phase: SagaPhaseView::RollingBack { failed, left } },
            outcomes,
        ) == (SagaRunView { total, phase: SagaPhaseView::Finished { failure: Some(failed) } }),
    decreases outcomes.len(),
{
    if left > 1 {
        lemma_rollback_end(failed, (left - 1) as nat, total, outcomes.drop_first());
    } else {
        let fin = SagaRunView { total, phase: SagaPhaseView::Finished { failure: Some(failed) } };
        assert(saga_after_compensations(fin, outcomes.drop_first()) == fin) by {
            assert(outcomes.drop_first().len() == 0);
        }
    }
}

/// When step `k` is the first to fail, the run has executed steps `0 ..= k`
/// in order; it then compensates steps `k - 1, k - 2, ..., 0`, one after the
/// other, newest first, whether or not each compensation succeeds; and it
/// ends by failing with step `k`'s error.
pub proof fn lemma_saga_failure_rolls_back(total: nat, k: nat, outcomes: Seq<bool>)
    requires
        k < total,
        outcomes.len() <= k,
    ensures
        saga_action(saga_after_successes(saga_start(total), k)) == SagaAction::Execute(k as usize),
        outcomes.len() < k ==> saga_action(
            saga_after_compensations(
                saga_advance(saga_after_successes(saga_start(total), k), false),
                outcomes,
            ),
        ) == SagaAction::Compensate((k - 1 - outcomes.len()) as usize),
        outcomes.len() == k ==> saga_action(
            saga_after_compensations(
                saga_advance(saga_after_successes(saga_start(total), k), false),
                outcomes,
            ),
        ) == SagaAction::Failed(k as usize),
{
    lemma_forward_prefix(total, k);
    if k == 0 {
        let fin = SagaRunView { total, phase: SagaPhaseView::Finished { failure: Some(0) } };
        assert(saga_after_compensations(fin, outcomes) == fin) by {
            assert(outcomes.len() == 0);
        }
    } else if outcomes.len() < k {
        lemma_rollback_progress(k, k, total, outcomes);
    } else {
        lemma_rollback_end(k, k, total, outcomes);
    }
}

} // verus!
