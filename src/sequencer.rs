use vstd::prelude::*;
use crate::calls::{calls_of, planned_calls, planned_calls_nonempty, Call};
use crate::capability::Capabilities;
use crate::plan::ProdClusterConfig;
use crate::step::{
    enabled, needs_package_manager, next_enabled, next_enabled_bounds, rank,
    skip_reason_spec, step_at_rank, step_at_spec, feature_enabled, SkipReason, StepId, STEP_COUNT,
};

verus! {

/// Why a step failed.
#[derive(Clone, Copy, Debug, PartialEq, Eq)]
pub enum Failure {
    /// The cluster-lifecycle tool could not create the cluster.
    ClusterCreate,
    /// A manifest apply or a package install failed.
    StepAction,
    /// A readiness wait ran out of time.
    ReadinessTimeout,
}

#[derive(Clone, Copy, Debug, PartialEq, Eq)]
pub enum Outcome {
    Succeeded,
    Skipped(SkipReason),
    Failed(Failure),
}

/// The outcome of one step.
#[derive(Clone, Copy, Debug, PartialEq, Eq)]
pub struct StepResult {
    pub step: StepId,
    pub outcome: Outcome,
}

/// How the failure of call `c` of step `s` is classified.
pub open spec fn failure_of(s: StepId, c: Call) -> Failure {
    if c is WaitReady {
        Failure::ReadinessTimeout
    } else if s == StepId::CreateCluster {
        Failure::ClusterCreate
    } else {
        Failure::StepAction
    }
}

pub fn failure_kind(s: StepId, c: &Call) -> (r: Failure)
    ensures
        r == failure_of(s, *c),
{
    match c {
        Call::WaitReady { .. } => Failure::ReadinessTimeout,
        _ => match s {
            StepId::CreateCluster => Failure::ClusterCreate,
            _ => Failure::StepAction,
        },
    }
}

/// The step sequencer. It runs the steps strictly in rank order, one call at
/// a time: `next_call` names the call to make, `record` takes its outcome.
/// Disabled steps are recorded as skipped without a call; the first failed
/// call fails its step and ends the run.
pub struct Sequencer {
    plan: ProdClusterConfig,
    caps: Capabilities,
    results: Vec<StepResult>,
    /// Calls of the step under way, the one of rank `results.len()`.
    calls: Vec<Call>,
    /// Index in `calls` of the next call.
    next: usize,
    /// Every call whose outcome was recorded, with its step, in order.
    executed: Ghost<Seq<(StepId, Call)>>,
}

impl Sequencer {
    pub closed spec fn plan(&self) -> ProdClusterConfig {
        self.plan
    }

    pub closed spec fn caps(&self) -> Capabilities {
        self.caps
    }

    /// Results of the steps that reached a terminal state, in rank order.
    pub closed spec fn results(&self) -> Seq<StepResult> {
        self.results@
    }

    /// The calls made so far, each with its step.
    pub closed spec fn executed(&self) -> Seq<(StepId, Call)> {
        self.executed@
    }

    /// Position of the next call within the current step's calls.
    pub closed spec fn call_index(&self) -> nat {
        self.next as nat
    }

    pub open spec fn failed(&self) -> bool {
        self.results().len() > 0 && self.results().last().outcome is Failed
    }

    pub open spec fn in_progress(&self) -> bool {
        !self.failed() && self.results().len() < STEP_COUNT
    }

    /// The step under way.
    pub open spec fn current_step(&self) -> StepId {
        step_at_spec(self.results().len())
    }

    /// The call to make next, while in progress.
    pub open spec fn pending(&self) -> Call {
        planned_calls(self.current_step(), self.caps())[self.call_index() as int]
    }

    /// Results, recorded steps and calls made so far agree with the plan.
    spec fn core_wf(&self) -> bool {
        let results = self.results@;
        let plan = self.plan;
        let caps = self.caps;
        &&& results.len() <= STEP_COUNT
        &&& forall|i: int| 0 <= i < results.len() ==> (#[trigger] results[i]).step == step_at_spec(i as nat)
        &&& forall|i: int|
            0 <= i < results.len() ==> ((#[trigger] results[i]).outcome is Skipped <==> !enabled(
                step_at_spec(i as nat),
                plan,
                caps,
            ))
        &&& forall|i: int|
            0 <= i < results.len() && (#[trigger] results[i]).outcome is Skipped ==> results[i].outcome
                == Outcome::Skipped(skip_reason_spec(step_at_spec(i as nat), plan, caps)->Some_0)
        &&& forall|i: int| 0 <= i < results.len() - 1 ==> !((#[trigger] results[i]).outcome is Failed)
        &&& forall|k: int|
            0 <= k < self.executed@.len() ==> enabled((#[trigger] self.executed@[k]).0, plan, caps)
        &&& forall|k: int|
            0 <= k < self.executed@.len() ==> planned_calls((#[trigger] self.executed@[k]).0, caps).contains(
                self.executed@[k].1,
            )
        &&& forall|i: int, j: int|
            0 <= i < j < self.executed@.len() ==> rank((#[trigger] self.executed@[i]).0) <= rank(
                (#[trigger] self.executed@[j]).0,
            )
    }

    pub closed spec fn wf(&self) -> bool {
        &&& self.core_wf()
        &&& forall|k: int|
            0 <= k < self.executed@.len() ==> rank((#[trigger] self.executed@[k]).0)
                <= self.results@.len()
        &&& forall|k: int|
            0 <= k < self.executed@.len() && rank((#[trigger] self.executed@[k]).0)
                == self.results@.len() ==> self.in_progress()
        &&& self.in_progress() ==> {
            &&& enabled(self.current_step(), self.plan, self.caps)
            &&& self.calls@ == planned_calls(self.current_step(), self.caps)
            &&& self.next < self.calls@.len()
        }
    }

    /// Records a skip for each disabled step from the current rank on, and
    /// loads the calls of the first enabled one.
    fn skip_disabled(&mut self)
        requires
            old(self).core_wf(),
            !old(self).failed(),
            forall|k: int|
                0 <= k < old(self).executed@.len() ==> rank((#[trigger] old(self).executed@[k]).0)
                    < old(self).results@.len(),
        ensures
            final(self).wf(),
            final(self).plan == old(self).plan,
            final(self).caps == old(self).caps,
            final(self).executed == old(self).executed,
            final(self).results@.len() == next_enabled(
                old(self).plan,
                old(self).caps,
                old(self).results@.len(),
            ),
            final(self).results@.subrange(0, old(self).results@.len() as int) == old(self).results@,
            !final(self).failed(),
            final(self).in_progress() ==> final(self).next == 0,
    {
        let ghost start = self.results@.len();
        proof {
            next_enabled_bounds(self.plan, self.caps, start);
        }
        while self.results.len() < STEP_COUNT
            invariant
                self.core_wf(),
                !self.failed(),
                self.plan == old(self).plan,
                self.caps == old(self).caps,
                self.executed == old(self).executed,
                start <= self.results@.len() <= next_enabled(self.plan, self.caps, start),
                self.results@.subrange(0, start as int) == old(self).results@,
                forall|k: int|
                    0 <= k < self.executed@.len() ==> rank((#[trigger] self.executed@[k]).0)
                        < self.results@.len(),
                forall|r: nat|
                    start <= r < next_enabled(self.plan, self.caps, start) ==> !enabled(
                        #[trigger] step_at_spec(r),
                        self.plan,
                        self.caps,
                    ),
                next_enabled(self.plan, self.caps, start) < STEP_COUNT ==> enabled(
                    step_at_spec(next_enabled(self.plan, self.caps, start)),
                    self.plan,
                    self.caps,
                ),
                next_enabled(self.plan, self.caps, start) <= STEP_COUNT,
            ensures
                self.results@.len() == next_enabled(self.plan, self.caps, start),
            decreases STEP_COUNT - self.results@.len(),
        {
            let step = StepId::at(self.results.len());
            match step.skip_reason(&self.plan, &self.caps) {
                Some(reason) => {
                    let ghost before = self.results@;
                    self.results.push(StepResult { step, outcome: Outcome::Skipped(reason) });
                    assert(self.results@.subrange(0, start as int) =~= before.subrange(
                        0,
                        start as int,
                    ));
                },
                None => {
                    assert(self.results@.len() == next_enabled(self.plan, self.caps, start)) by {
                        if self.results@.len() < next_enabled(self.plan, self.caps, start) {
                            assert(!enabled(step_at_spec(self.results@.len()), self.plan, self.caps));
                        }
                    }
                    break ;
                },
            }
        }
        if self.results.len() < STEP_COUNT {
            let step = StepId::at(self.results.len());
            self.calls = calls_of(step, &self.caps);
            self.next = 0;
            proof {
                planned_calls_nonempty(step, self.caps);
            }
        }
    }

    fn has_failed(&self) -> (r: bool)
        ensures
            r == self.failed(),
    {
        let n = self.results.len();
        if n == 0 {
            false
        } else {
            match self.results[n - 1].outcome {
                Outcome::Failed(_) => true,
                _ => false,
            }
        }
    }

    /// Whether the run is over: every step reached a terminal state, or one
    /// failed.
    pub fn is_finished(&self) -> (r: bool)
        ensures
            r == !self.in_progress(),
    {
        self.has_failed() || self.results.len() >= STEP_COUNT
    }

    /// The call to make next, or `None` once the run is over.
    pub fn next_call(&self) -> (r: Option<Call>)
        requires
            self.wf(),
        ensures
            r == (if self.in_progress() {
                Some(self.pending())
            } else {
                None
            }),
    {
        if self.is_finished() {
            None
        } else {
            Some(self.calls[self.next])
        }
    }

    /// The step under way, or `None` once the run is over.
    pub fn current(&self) -> (r: Option<StepId>)
        ensures
            r == (if self.in_progress() {
                Some(self.current_step())
            } else {
                None
            }),
    {
        if self.is_finished() {
            None
        } else {
            StepId::at_opt(self.results.len())
        }
    }

    /// The results recorded so far, in rank order.
    pub fn results_so_far(&self) -> (r: Vec<StepResult>)
        ensures
            r@ == self.results(),
    {
        let mut r: Vec<StepResult> = Vec::new();
        let mut i: usize = 0;
        while i < self.results.len()
            invariant
                i <= self.results@.len(),
                r@ == self.results@.subrange(0, i as int),
            decreases self.results@.len() - i,
        {
            r.push(self.results[i]);
            i = i + 1;
            assert(r@ =~= self.results@.subrange(0, i as int));
        }
        assert(r@ =~= self.results@);
        r
    }

    /// Takes the outcome of the pending call. A failed call fails its step
    /// and ends the run; a successful one moves to the step's next call or,
    /// after its last, records the step as succeeded and moves to the next
    /// enabled step, recording a skip for each disabled one between. Once the
    /// run is over nothing changes.
    pub fn record(&mut self, succeeded: bool)
        requires
            old(self).wf(),
        ensures
            final(self).wf(),
            final(self).plan() == old(self).plan(),
            final(self).caps() == old(self).caps(),
            old(self).results().is_prefix_of(final(self).results()),
            !old(self).in_progress() ==> final(self).results() == old(self).results()
                && final(self).executed() == old(self).executed(),
            old(self).in_progress() ==> final(self).executed() == old(self).executed().push(
                (old(self).current_step(), old(self).pending()),
            ),
            old(self).in_progress() && !succeeded ==> final(self).results() == old(
                self,
            ).results().push(
                (StepResult {
                    step: old(self).current_step(),
                    outcome: Outcome::Failed(failure_of(old(self).current_step(), old(self).pending())),
                }),
            ),
            old(self).in_progress() && succeeded && old(self).call_index() + 1 < planned_calls(
                old(self).current_step(),
                old(self).caps(),
            ).len() ==> final(self).results() == old(self).results() && final(self).call_index()
                == old(self).call_index() + 1,
            old(self).in_progress() && succeeded && old(self).call_index() + 1 == planned_calls(
                old(self).current_step(),
                old(self).caps(),
            ).len() ==> {
                &&& final(self).results().len() == next_enabled(
                    old(self).plan(),
                    old(self).caps(),
                    old(self).results().len() + 1,
                )
                &&& final(self).results()[old(self).results().len() as int] == (StepResult {
                    step: old(self).current_step(),
                    outcome: Outcome::Succeeded,
                })
                &&& !final(self).failed()
                &&& final(self).in_progress() ==> final(self).call_index() == 0
            },
    {
        if self.is_finished() {
            return ;
        }
        let ghost before = self.results@;
        let (step, call) = self.log_pending();
        if !succeeded {
            self.fail_step(step, call);
            assert(before =~= self.results@.subrange(0, before.len() as int));
        } else if self.next < self.calls.len() - 1 {
            self.next = self.next + 1;
            assert(before =~= self.results@.subrange(0, before.len() as int));
        } else {
            proof {
                next_enabled_bounds(self.plan, self.caps, before.len() + 1);
            }
            self.finish_step(step);
            assert(before =~= self.results@.subrange(0, before.len() as int));
        }
    }

    /// Notes the pending call as made.
    fn log_pending(&mut self) -> (r: (StepId, Call))
        requires
            old(self).wf(),
            old(self).in_progress(),
        ensures
            final(self).wf(),
            r == (old(self).current_step(), old(self).pending()),
            final(self).executed@ == old(self).executed@.push(r),
            final(self).plan == old(self).plan,
            final(self).caps == old(self).caps,
            final(self).results == old(self).results,
            final(self).calls == old(self).calls,
            final(self).next == old(self).next,
            final(self).next < final(self).calls@.len(),
    {
        let step = StepId::at(self.results.len());
        let call = self.calls[self.next];
        let ghost before = self.executed@;
        assert(planned_calls(step, self.caps)[self.next as int] == call);
        self.executed = Ghost(self.executed@.push((step, call)));
        assert forall|k: int| 0 <= k < self.executed@.len() implies rank(
            (#[trigger] self.executed@[k]).0,
        ) <= self.results@.len() by {
            if k < before.len() {
                assert(self.executed@[k] == before[k]);
            }
        }
        (step, call)
    }

    fn fail_step(&mut self, step: StepId, call: Call)
        requires
            old(self).wf(),
            old(self).in_progress(),
            step == old(self).current_step(),
        ensures
            final(self).wf(),
            final(self).results@ == old(self).results@.push(
                (StepResult { step, outcome: Outcome::Failed(failure_of(step, call)) }),
            ),
            final(self).executed == old(self).executed,
            final(self).plan == old(self).plan,
            final(self).caps == old(self).caps,
    {
        let f = failure_kind(step, &call);
        self.results.push(StepResult { step, outcome: Outcome::Failed(f) });
    }

    fn finish_step(&mut self, step: StepId)
        requires
            old(self).wf(),
            old(self).in_progress(),
            step == old(self).current_step(),
        ensures
            final(self).wf(),
            final(self).results@.len() == next_enabled(
                old(self).plan,
                old(self).caps,
                old(self).results@.len() + 1,
            ),
            final(self).results@.subrange(0, old(self).results@.len() as int) == old(self).results@,
            final(self).results@[old(self).results@.len() as int] == (StepResult {
                step,
                outcome: Outcome::Succeeded,
            }),
            !final(self).failed(),
            final(self).in_progress() ==> final(self).next == 0,
            final(self).executed == old(self).executed,
            final(self).plan == old(self).plan,
            final(self).caps == old(self).caps,
    {
        let ghost before = self.results@;
        self.results.push(StepResult { step, outcome: Outcome::Succeeded });
        let ghost mid = self.results@;
        proof {
            next_enabled_bounds(self.plan, self.caps, mid.len());
        }
        self.skip_disabled();
        assert(self.results@.subrange(0, before.len() as int) =~= mid.subrange(
            0,
            mid.len() as int,
        ).subrange(0, before.len() as int));
        assert(mid.subrange(0, before.len() as int) =~= before);
        assert(self.results@[before.len() as int] == self.results@.subrange(
            0,
            mid.len() as int,
        )[before.len() as int]);
    }

    /// The plan being run.
    pub fn plan_ref(&self) -> (r: &ProdClusterConfig)
        ensures
            *r == self.plan(),
    {
        &self.plan
    }

    /// The capability set the run was started with.
    pub fn capabilities(&self) -> (r: Capabilities)
        ensures
            r == self.caps(),
    {
        self.caps
    }

    /// The failure that ended the run, with its step, if one did.
    pub fn failure(&self) -> (r: Option<(StepId, Failure)>)
        ensures
            r == (if self.failed() {
                Some((self.results().last().step, self.results().last().outcome->Failed_0))
            } else {
                None
            }),
    {
        let n = self.results.len();
        if n == 0 {
            None
        } else {
            let last = self.results[n - 1];
            match last.outcome {
                Outcome::Failed(f) => Some((last.step, f)),
                _ => None,
            }
        }
    }

    /// Starts a run of `plan` under `caps`.
    pub fn new(plan: ProdClusterConfig, caps: Capabilities) -> (s: Sequencer)
        ensures
            s.wf(),
            s.plan() == plan,
            s.caps() == caps,
            s.executed() == Seq::<(StepId, Call)>::empty(),
            s.results().len() == next_enabled(plan, caps, 0),
            !s.failed(),
            s.in_progress() ==> s.call_index() == 0,
    {
        let mut s = Sequencer {
            plan,
            caps,
            results: Vec::new(),
            calls: Vec::new(),
            next: 0,
            executed: Ghost(Seq::empty()),
        };
        s.skip_disabled();
        s
    }
}

/// Steps run in strictly ascending rank order. One result is recorded per rank,
/// in rank order; the calls made never go back to a lower rank; whenever a
/// call of the step of rank `r` is made, or is about to be, every step of lower
/// rank has already succeeded or been skipped; and every call made is one that
/// its step plans.
pub proof fn steps_run_in_rank_order(s: &Sequencer)
    requires
        s.wf(),
    ensures
        forall|i: int|
            0 <= i < s.results().len() ==> (#[trigger] s.results()[i]).step == step_at_spec(i as nat),
        forall|i: int, j: int|
            0 <= i < j < s.executed().len() ==> rank((#[trigger] s.executed()[i]).0) <= rank(
                (#[trigger] s.executed()[j]).0,
            ),
        forall|k: int, r: int|
            0 <= k < s.executed().len() && 0 <= r < rank((#[trigger] s.executed()[k]).0) ==> r
                < s.results().len() && ((#[trigger] s.results()[r]).outcome is Succeeded
                || s.results()[r].outcome is Skipped),
        s.in_progress() ==> forall|r: int|
            0 <= r < s.results().len() ==> ((#[trigger] s.results()[r]).outcome is Succeeded
                || s.results()[r].outcome is Skipped),
        forall|k: int|
            0 <= k < s.executed().len() ==> planned_calls(
                (#[trigger] s.executed()[k]).0,
                s.caps(),
            ).contains(s.executed()[k].1),
{
    assert forall|k: int, r: int|
        0 <= k < s.executed().len() && 0 <= r < rank((#[trigger] s.executed()[k]).0) implies r
        < s.results().len() && ((#[trigger] s.results()[r]).outcome is Succeeded
        || s.results()[r].outcome is Skipped) by {
        assert(r < s.results().len() - 1 || s.in_progress());
    }
}

/// A step whose enablement predicate is false is recorded as skipped, with the
/// reason the predicate gives, and no call of it is ever made; an enabled step
/// is never recorded as skipped.
pub proof fn disabled_steps_are_skipped(s: &Sequencer)
    requires
        s.wf(),
    ensures
        forall|i: int|
            0 <= i < s.results().len() ==> (!enabled(step_at_spec(i as nat), s.plan(), s.caps())
                <==> (#[trigger] s.results()[i]).outcome is Skipped),
        forall|i: int|
            0 <= i < s.results().len() && (#[trigger] s.results()[i]).outcome is Skipped
                ==> s.results()[i].outcome == Outcome::Skipped(
                skip_reason_spec(step_at_spec(i as nat), s.plan(), s.caps())->Some_0,
            ),
        forall|k: int|
            0 <= k < s.executed().len() ==> enabled((#[trigger] s.executed()[k]).0, s.plan(), s.caps()),
        s.in_progress() ==> enabled(s.current_step(), s.plan(), s.caps()),
{
}

/// A feature whose flag is off is never touched: no call of its step is made,
/// it is never the step under way, and once the run has passed it, it stands
/// as skipped.
pub proof fn disabled_feature_untouched(s: &Sequencer, step: StepId)
    requires
        s.wf(),
        !feature_enabled(step, s.plan()),
    ensures
        forall|k: int| 0 <= k < s.executed().len() ==> (#[trigger] s.executed()[k]).0 != step,
        s.in_progress() ==> s.current_step() != step,
        rank(step) < s.results().len() ==> s.results()[rank(step) as int].outcome is Skipped,
{
    step_at_rank(step);
}

/// Without the package manager only cluster creation and the namespace step
/// run: every other step is skipped for that reason, and none of its calls is
/// made.
pub proof fn bare_cluster_without_package_manager(s: &Sequencer)
    requires
        s.wf(),
        !s.caps().package_manager,
    ensures
        forall|k: int|
            0 <= k < s.executed().len() ==> !needs_package_manager((#[trigger] s.executed()[k]).0),
        s.in_progress() ==> !needs_package_manager(s.current_step()),
        forall|i: int|
            0 <= i < s.results().len() && needs_package_manager(step_at_spec(i as nat))
                ==> (#[trigger] s.results()[i]).outcome == Outcome::Skipped(
                SkipReason::PackageManagerUnavailable,
            ),
{
}

/// A failure ends the run: the failed step is the last result, no result
/// before it is a failure, no call of a later step has been made, and the
/// sequencer takes no further call (`record` then changes nothing).
pub proof fn failure_aborts_run(s: &Sequencer)
    requires
        s.wf(),
        s.failed(),
    ensures
        !s.in_progress(),
        s.results().last().step == step_at_spec((s.results().len() - 1) as nat),
        forall|i: int| 0 <= i < s.results().len() - 1 ==> !((#[trigger] s.results()[i]).outcome is Failed),
        forall|k: int|
            0 <= k < s.executed().len() ==> rank((#[trigger] s.executed()[k]).0) <= s.results().len()
                - 1,
{
}

} // verus!
