//! Pipeline orchestrator: the build's steps in strict dependency order,
//! short-circuiting at the first failure.
//!
//! The orchestrator owns only the decision logic. For each step the
//! caller computes the current fingerprint, reads the stored record
//! bytes, and asks `open_and_resolve` what to do; it then performs the
//! required action (skip, or run the regenerating command) and reports
//! the outcome back with `record_outcome`. Once a step fails, no later
//! step is ever attempted.

use vstd::prelude::*;
use crate::cache::CacheStore;
use crate::fingerprint::Fingerprint;
use crate::metadata::record_decoding;
use crate::strategy::{CacheDecision, decision_of, resolve};

verus! {

/// The build steps, in their hard dependency order.
#[derive(Clone, Copy, Debug, PartialEq, Eq, Structural)]
pub enum StepKind {
    RuntimeInstall,
    DependencyCacheValidate,
    PackageManagerInstall,
    ProjectTasks,
}

/// The four standard steps in their dependency order: the runtime is
/// installed first, the dependency cache is validated against it, the
/// package manager installs into it, and project tasks run last.
pub fn standard_steps() -> (v: Vec<StepKind>)
    ensures
        v@ =~= seq![
            StepKind::RuntimeInstall,
            StepKind::DependencyCacheValidate,
            StepKind::PackageManagerInstall,
            StepKind::ProjectTasks,
        ],
{
    let mut v: Vec<StepKind> = Vec::new();
    v.push(StepKind::RuntimeInstall);
    v.push(StepKind::DependencyCacheValidate);
    v.push(StepKind::PackageManagerInstall);
    v.push(StepKind::ProjectTasks);
    v
}

/// The failure origin a step's own failure is classified under.
pub open spec fn origin_of_step(k: StepKind) -> crate::classify::FailureOrigin {
    match k {
        StepKind::RuntimeInstall => crate::classify::FailureOrigin::RuntimeInstall,
        StepKind::DependencyCacheValidate => crate::classify::FailureOrigin::CacheAccess,
        StepKind::PackageManagerInstall => crate::classify::FailureOrigin::PackageManagerInstall,
        StepKind::ProjectTasks => crate::classify::FailureOrigin::ProjectTask,
    }
}

/// Maps a failing step to the origin handed to the classifier.
pub fn origin_for_step(k: StepKind) -> (o: crate::classify::FailureOrigin)
    ensures
        o == origin_of_step(k),
{
    match k {
        StepKind::RuntimeInstall => crate::classify::FailureOrigin::RuntimeInstall,
        StepKind::DependencyCacheValidate => crate::classify::FailureOrigin::CacheAccess,
        StepKind::PackageManagerInstall => crate::classify::FailureOrigin::PackageManagerInstall,
        StepKind::ProjectTasks => crate::classify::FailureOrigin::ProjectTask,
    }
}

/// The state one step is in.
#[derive(Clone, Copy, Debug, PartialEq, Eq, Structural)]
pub enum StepStatus {
    Pending,
    Succeeded,
    Failed,
}

/// The state of the whole pipeline.
#[derive(Clone, Copy, Debug, PartialEq, Eq, Structural)]
pub enum PipelineState {
    InProgress,
    Succeeded,
    Failed,
}

/// What the resolved cache decision obliges the caller to do before and
/// after the step command.
#[derive(Clone, Copy, Debug, PartialEq, Eq, Structural)]
pub enum StepAction {
    /// Keep: skip the command, log the reuse, commit nothing.
    SkipReuse,
    /// Recreate: fully clear the cache directory, then run the command
    /// and commit, so no stale leftover file passes for output.
    RunAfterClearing,
    /// Update: keep the directory contents, run the command once more and
    /// re-commit the metadata.
    RunInPlace,
}

/// The action each decision obliges.
pub open spec fn action_of(d: CacheDecision) -> StepAction {
    match d {
        CacheDecision::Keep => StepAction::SkipReuse,
        CacheDecision::Update => StepAction::RunInPlace,
        CacheDecision::Recreate => StepAction::RunAfterClearing,
    }
}

/// Maps a cache decision to the caller's obligation for the step.
pub fn action_for(d: CacheDecision) -> (a: StepAction)
    ensures
        a == action_of(d),
{
    match d {
        CacheDecision::Keep => StepAction::SkipReuse,
        CacheDecision::Update => StepAction::RunInPlace,
        CacheDecision::Recreate => StepAction::RunAfterClearing,
    }
}

/// Opens one step's cache store from the record bytes read off disk and
/// resolves the strategy against the current fingerprint and identity.
/// A missing record, and equally a record that does not decode, yields
/// Recreate — cache corruption never surfaces as an error.
pub fn open_and_resolve(
    name: Vec<u8>,
    raw: Option<Vec<u8>>,
    current: &Fingerprint,
    identity: &Vec<u8>,
) -> (r: (CacheStore, CacheDecision))
    ensures
        r.0.name == name,
        r.0.wf(),
        r.1 == decision_of(current.bytes@, r.0.metadata_view(), identity@),
        raw is None ==> r.1 == CacheDecision::Recreate,
        raw matches Some(b) && record_decoding(b@) is None ==> r.1 == CacheDecision::Recreate,
        raw matches Some(b) ==> r.0.metadata_view() == record_decoding(b@),
{
    let store = CacheStore::open(name, raw);
    let decision = resolve(current, store.current_metadata(), identity);
    (store, decision)
}

/// The pipeline over `total` steps: the first `done` steps succeeded; if
/// `failed`, the step at index `done` failed and everything after it
/// stays pending; otherwise the step at `done` is the next to attempt.
pub struct Pipeline {
    pub total: usize,
    pub done: usize,
    pub failed: bool,
}

impl Pipeline {
    pub open spec fn wf(&self) -> bool {
        &&& self.done <= self.total
        &&& (self.failed ==> self.done < self.total)
    }

    /// The status of step `i`: the succeeded prefix, then at most one
    /// failed step, then pending steps that are never attempted.
    pub open spec fn status_of(&self, i: int) -> StepStatus {
        if i < self.done {
            StepStatus::Succeeded
        } else if self.failed && i == self.done {
            StepStatus::Failed
        } else {
            StepStatus::Pending
        }
    }

    /// The overall state: Succeeded only when every step succeeded;
    /// Failed as soon as one step failed.
    pub open spec fn state_of(&self) -> PipelineState {
        if self.failed {
            PipelineState::Failed
        } else if self.done == self.total {
            PipelineState::Succeeded
        } else {
            PipelineState::InProgress
        }
    }

    /// A pipeline with every step pending.
    pub fn new(total: usize) -> (p: Pipeline)
        ensures
            p.wf(),
            p.total == total,
            p.done == 0,
            !p.failed,
            p.state_of() == (if total == 0 {
                PipelineState::Succeeded
            } else {
                PipelineState::InProgress
            }),
            forall|i: int| 0 <= i ==> p.status_of(i) == StepStatus::Pending,
    {
        Pipeline { total, done: 0, failed: false }
    }

    /// The overall state of the pipeline.
    pub fn state(&self) -> (s: PipelineState)
        ensures
            s == self.state_of(),
    {
        if self.failed {
            PipelineState::Failed
        } else if self.done == self.total {
            PipelineState::Succeeded
        } else {
            PipelineState::InProgress
        }
    }

    /// The status of step `i`.
    pub fn status(&self, i: usize) -> (s: StepStatus)
        ensures
            s == self.status_of(i as int),
    {
        if i < self.done {
            StepStatus::Succeeded
        } else if self.failed && i == self.done {
            StepStatus::Failed
        } else {
            StepStatus::Pending
        }
    }

    /// The next step to attempt, in dependency order; `None` once the
    /// pipeline has finished or failed — after a failure no further step
    /// is ever started.
    pub fn next_step(&self) -> (r: Option<usize>)
        requires
            self.wf(),
        ensures
            match r {
                Some(i) => i == self.done && self.state_of() == PipelineState::InProgress
                    && self.status_of(i as int) == StepStatus::Pending,
                None => self.state_of() != PipelineState::InProgress,
            },
    {
        if !self.failed && self.done < self.total {
            Some(self.done)
        } else {
            None
        }
    }

    /// Records the outcome of the step that `next_step` handed out: on
    /// success the step is marked Succeeded and the pipeline moves on; on
    /// failure the pipeline is Failed and every later step stays Pending.
    pub fn record_outcome(&mut self, ok: bool)
        requires
            old(self).wf(),
            old(self).state_of() == PipelineState::InProgress,
        ensures
            final(self).wf(),
            final(self).total == old(self).total,
            ok ==> final(self).done == old(self).done + 1 && !final(self).failed,
            !ok ==> final(self).done == old(self).done && final(self).failed,
            final(self).status_of(old(self).done as int) == (if ok {
                StepStatus::Succeeded
            } else {
                StepStatus::Failed
            }),
            forall|i: int| i != old(self).done ==> final(self).status_of(i) == old(
                self,
            ).status_of(i),
    {
        if ok {
            self.done = self.done + 1;
        } else {
            self.failed = true;
        }
    }
}

/// The index of the first failing outcome, or the length when every
/// outcome is a success.
pub open spec fn first_failure(outcomes: Seq<bool>) -> int
    decreases outcomes.len(),
{
    if outcomes.len() == 0 {
        0
    } else if !outcomes[0] {
        0
    } else {
        1 + first_failure(outcomes.skip(1))
    }
}

/// Law: the pipeline short-circuits. Driving a pipeline over the given
/// per-step outcomes attempts exactly the steps up to and including the
/// first failure: every earlier step succeeds, the first failing step is
/// Failed and ends the pipeline, and every later step remains Pending,
/// never attempted.
pub fn run_to_end(outcomes: &Vec<bool>) -> (p: Pipeline)
    ensures
        p.wf(),
        p.total == outcomes@.len(),
        p.done == first_failure(outcomes@),
        p.failed == (first_failure(outcomes@) < outcomes@.len()),
        p.state_of() == (if first_failure(outcomes@) < outcomes@.len() {
            PipelineState::Failed
        } else {
            PipelineState::Succeeded
        }),
        forall|i: int|
            0 <= i < first_failure(outcomes@) ==> p.status_of(i) == StepStatus::Succeeded,
        first_failure(outcomes@) < outcomes@.len() ==> p.status_of(first_failure(outcomes@))
            == StepStatus::Failed,
        forall|i: int|
            first_failure(outcomes@) < i < outcomes@.len() ==> p.status_of(i)
                == StepStatus::Pending,
{
    let mut p = Pipeline::new(outcomes.len());
    while !p.failed && p.done < p.total
        invariant
            p.wf(),
            p.total == outcomes@.len(),
            !p.failed ==> forall|j: int| 0 <= j < p.done ==> outcomes@[j],
            p.failed ==> p.done == first_failure(outcomes@) && p.done < outcomes@.len(),
        decreases outcomes@.len() - p.done + (if p.failed {
            0int
        } else {
            1int
        }),
    {
        let i = p.done;
        let ok = outcomes[i];
        proof {
            if !ok {
                lemma_first_failure_at(outcomes@, i as int);
            }
        }
        p.record_outcome(ok);
    }
    proof {
        if !p.failed {
            lemma_first_failure_none(outcomes@);
        }
    }
    p
}

/// Where every outcome before `i` succeeds and `i` fails, `i` is the
/// first failure.
proof fn lemma_first_failure_at(outcomes: Seq<bool>, i: int)
    requires
        0 <= i < outcomes.len(),
        forall|j: int| 0 <= j < i ==> outcomes[j],
        !outcomes[i],
    ensures
        first_failure(outcomes) == i,
    decreases i,
{
    if i > 0 {
        assert(outcomes[0]);
        assert forall|j: int| 0 <= j < i - 1 implies outcomes.skip(1)[j] by {
            assert(outcomes.skip(1)[j] == outcomes[j + 1]);
        }
        assert(outcomes.skip(1)[i - 1] == outcomes[i]);
        lemma_first_failure_at(outcomes.skip(1), i - 1);
    }
}

/// Where every outcome succeeds, the first failure sits past the end.
proof fn lemma_first_failure_none(outcomes: Seq<bool>)
    requires
        forall|j: int| 0 <= j < outcomes.len() ==> outcomes[j],
    ensures
        first_failure(outcomes) == outcomes.len(),
    decreases outcomes.len(),
{
    if outcomes.len() > 0 {
        assert forall|j: int| 0 <= j < outcomes.skip(1).len() implies outcomes.skip(1)[j] by {
            assert(outcomes.skip(1)[j] == outcomes[j + 1]);
        }
        lemma_first_failure_none(outcomes.skip(1));
    }
}

} // verus!
