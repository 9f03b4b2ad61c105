//! The stage runner's decision core: run-scoped result and status maps,
//! fail-fast skip propagation, and the per-stage execution protocol. The
//! surrounding tool walks the layers, spawns the work this module hands out,
//! and feeds every observed outcome back in.

use vstd::prelude::*;

use crate::builder::{BuildStep, Builder, ExecutableInfo};
use crate::executor::ExecutionResult;
use crate::stage::{
    lemma_stage_index_bijective, spec_can_run_concurrent, stage_index, stage_of_index, Stage,
    STAGE_COUNT,
};
use crate::stage_context::{spec_steps_for_stage, StageContext, StageResult, StageStatus};

verus! {

/// Shared state for one orchestration run.
#[derive(Debug, Clone)]
pub struct BuildContext {
    builder: Builder,
}

impl BuildContext {
    /// The builder driving this run.
    pub closed spec fn spec_builder(self) -> Builder {
        self.builder
    }

    pub open spec fn wf(self) -> bool {
        self.spec_builder().wf()
    }

    pub fn new(builder: Builder) -> (r: Self)
        requires
            builder.wf(),
        ensures
            r.wf(),
            r.spec_builder() == builder,
    {
        BuildContext { builder }
    }

    pub fn builder(&self) -> (r: &Builder)
        ensures
            *r == self.spec_builder(),
    {
        &self.builder
    }
}

/// What the runner decides must happen for one stage.
pub enum StageDecision {
    /// The stage is already settled; its result was recorded.
    Done(StageResult),
    /// Run these steps in order, stopping at the first failure.
    RunSteps(Vec<BuildStep>),
    /// Launch the built artifact as one long-lived process.
    RunProgram(ExecutableInfo),
}

/// How one dependency layer must be scheduled.
#[derive(Debug, Clone, Copy, PartialEq, Eq, Structural)]
pub enum LayerDirective {
    /// A prior stage failed: mark the whole layer skipped, spawn nothing.
    SkipAll,
    /// Every stage is concurrency-eligible and there is more than one:
    /// run them as independent concurrent tasks.
    RunConcurrent,
    /// Run the stages one after another, stopping the layer on a failure.
    RunSequential,
}

/// A field-equal copy of a stage result.
pub fn clone_stage_result(r: &StageResult) -> (c: StageResult)
    ensures
        c == *r,
{
    match r {
        StageResult::Success { duration_ms, steps_executed } => StageResult::Success {
            duration_ms: *duration_ms,
            steps_executed: *steps_executed,
        },
        StageResult::Failed { error, duration_ms, steps_executed } => StageResult::Failed {
            error: error.clone(),
            duration_ms: *duration_ms,
            steps_executed: *steps_executed,
        },
        StageResult::Skipped { reason } => StageResult::Skipped { reason: reason.clone() },
    }
}

/// A field-equal copy of an executable descriptor.
pub fn clone_exec_info(info: &ExecutableInfo) -> (c: ExecutableInfo)
    ensures
        c == *info,
{
    ExecutableInfo {
        path: info.path.clone(),
        name: info.name.clone(),
        project_dir: info.project_dir.clone(),
        build_dir: info.build_dir.clone(),
        install_dir: info.install_dir.clone(),
    }
}

/// The position of the first failing result, or the length when all
/// succeeded.
pub open spec fn spec_first_failure(rs: Seq<ExecutionResult>, from: int) -> int
    decreases rs.len() - from
        when 0 <= from <= rs.len()
{
    if from >= rs.len() {
        rs.len() as int
    } else if !rs[from].success {
        from
    } else {
        spec_first_failure(rs, from + 1)
    }
}

proof fn lemma_first_failure_exact(rs: Seq<ExecutionResult>, from: int, j: int)
    requires
        0 <= from <= j <= rs.len(),
        forall|k: int| from <= k < j ==> (#[trigger] rs[k]).success,
        j == rs.len() || !rs[j].success,
    ensures
        spec_first_failure(rs, from) == j,
    decreases j - from,
{
    if from < j {
        lemma_first_failure_exact(rs, from + 1, j);
    }
}

/// The stage result that a finished step list stands for: success only when
/// every step succeeded, else the first failure's reason (or a fixed text
/// when that step carried none).
pub fn stage_result_from_steps(results: &Vec<ExecutionResult>, duration_ms: u64) -> (r: StageResult)
    ensures
        ({
            let ff = spec_first_failure(results@, 0);
            match r {
                StageResult::Success { duration_ms: d, steps_executed } => {
                    &&& ff == results@.len()
                    &&& d == duration_ms
                    &&& steps_executed == results@.len()
                },
                StageResult::Failed { error, duration_ms: d, steps_executed } => {
                    &&& ff < results@.len()
                    &&& d == duration_ms
                    &&& steps_executed == results@.len()
                    &&& error@ == (match results@[ff].failure_reason {
                        Some(reason) => reason@,
                        None => "Stage execution failed"@,
                    })
                },
                StageResult::Skipped { .. } => false,
            }
        }),
{
    let mut i: usize = 0;
    while i < results.len()
        invariant
            i <= results@.len(),
            forall|k: int| 0 <= k < i ==> (#[trigger] results@[k]).success,
        decreases results@.len() - i,
    {
        if !results[i].success {
            proof {
                lemma_first_failure_exact(results@, 0, i as int);
            }
            let error = match &results[i].failure_reason {
                Some(reason) => reason.clone(),
                None => "Stage execution failed".to_owned(),
            };
            return StageResult::Failed {
                error,
                duration_ms,
                steps_executed: results.len(),
            };
        }
        i = i + 1;
    }
    proof {
        lemma_first_failure_exact(results@, 0, results@.len() as int);
    }
    StageResult::Success { duration_ms, steps_executed: results.len() }
}

/// The stage result that one finished program run stands for.
pub fn program_stage_result(result: &ExecutionResult) -> (r: StageResult)
    ensures
        result.success ==> (r matches StageResult::Success { duration_ms, steps_executed }
            && duration_ms == result.duration_ms && steps_executed == 1),
        !result.success ==> (r matches StageResult::Failed { error, duration_ms, steps_executed }
            && duration_ms == result.duration_ms && steps_executed == 1 && error@ == (
        match result.failure_reason {
            Some(reason) => reason@,
            None => "Execution failed"@,
        })),
{
    if result.success {
        StageResult::Success { duration_ms: result.duration_ms, steps_executed: 1 }
    } else {
        let error = match &result.failure_reason {
            Some(reason) => reason.clone(),
            None => "Execution failed".to_owned(),
        };
        StageResult::Failed { error, duration_ms: result.duration_ms, steps_executed: 1 }
    }
}

/// The status a settled result is paired with.
pub open spec fn status_of_result(r: StageResult) -> StageStatus {
    match r {
        StageResult::Success { .. } => StageStatus::Completed,
        StageResult::Failed { .. } => StageStatus::Failed,
        StageResult::Skipped { .. } => StageStatus::Skipped,
    }
}

/// Executes the layered plan with run-scoped progress tracking: one result
/// and one status slot per stage, written under the caller's lock.
pub struct StageRunner {
    ctx: BuildContext,
    results: Vec<Option<StageResult>>,
    statuses: Vec<Option<StageStatus>>,
}

impl StageRunner {
    /// The context this runner was created over.
    pub closed spec fn spec_ctx(self) -> BuildContext {
        self.ctx
    }

    /// The recorded result of a stage.
    pub closed spec fn spec_result(self, stage: Stage) -> Option<StageResult> {
        self.results@[stage_index(stage)]
    }

    /// The recorded status of a stage.
    pub closed spec fn spec_status(self, stage: Stage) -> Option<StageStatus> {
        self.statuses@[stage_index(stage)]
    }

    /// Some recorded result is a failure, so fail-fast propagation holds.
    pub open spec fn any_failed(self) -> bool {
        exists|s: Stage| (#[trigger] self.spec_result(s)) matches Some(StageResult::Failed { .. })
    }

    /// The slot tables are fully sized.
    pub closed spec fn spec_tables_wf(self) -> bool {
        self.results@.len() == STAGE_COUNT && self.statuses@.len() == STAGE_COUNT
    }

    pub open spec fn wf(self) -> bool {
        self.spec_tables_wf() && self.spec_ctx().wf()
    }

    /// A runner with no stage started.
    pub fn new(ctx: BuildContext) -> (r: Self)
        requires
            ctx.wf(),
        ensures
            r.wf(),
            r.spec_ctx() == ctx,
            forall|s: Stage| r.spec_result(s) is None,
            forall|s: Stage| r.spec_status(s) is None,
    {
        proof {
            lemma_stage_index_bijective();
        }
        let mut results: Vec<Option<StageResult>> = Vec::new();
        let mut statuses: Vec<Option<StageStatus>> = Vec::new();
        let mut i: usize = 0;
        while i < STAGE_COUNT
            invariant
                i <= STAGE_COUNT,
                results@.len() == i,
                statuses@.len() == i,
                forall|k: int| 0 <= k < i ==> results@[k] is None,
                forall|k: int| 0 <= k < i ==> statuses@[k] is None,
            decreases STAGE_COUNT - i,
        {
            results.push(None);
            statuses.push(None);
            i = i + 1;
        }
        StageRunner { ctx, results, statuses }
    }

    /// The recorded status of a stage.
    pub fn get_status(&self, stage: Stage) -> (r: Option<StageStatus>)
        requires
            self.wf(),
        ensures
            r == self.spec_status(stage),
    {
        proof {
            lemma_stage_index_bijective();
        }
        self.statuses[stage.index_of()]
    }

    /// The recorded result of a stage.
    pub fn get_result(&self, stage: Stage) -> (r: Option<StageResult>)
        requires
            self.wf(),
        ensures
            r == self.spec_result(stage),
    {
        proof {
            lemma_stage_index_bijective();
        }
        match &self.results[stage.index_of()] {
            Some(result) => Some(clone_stage_result(result)),
            None => None,
        }
    }

    /// Forgets every result and status, ending the run's scope.
    pub fn clear(&mut self)
        requires
            old(self).wf(),
        ensures
            final(self).wf(),
            final(self).spec_ctx() == old(self).spec_ctx(),
            forall|s: Stage| final(self).spec_result(s) is None,
            forall|s: Stage| final(self).spec_status(s) is None,
    {
        proof {
            lemma_stage_index_bijective();
        }
        let mut i: usize = 0;
        while i < STAGE_COUNT
            invariant
                i <= STAGE_COUNT,
                self.results@.len() == STAGE_COUNT,
                self.statuses@.len() == STAGE_COUNT,
                self.ctx == old(self).ctx,
                forall|k: int| 0 <= k < i ==> self.results@[k] is None,
                forall|k: int| 0 <= k < i ==> self.statuses@[k] is None,
            decreases STAGE_COUNT - i,
        {
            self.results[i] = None;
            self.statuses[i] = None;
            i = i + 1;
        }
    }

    /// Writes a stage's result and its matching status together, as one
    /// atomic settlement.
    pub fn complete_stage(&mut self, stage: Stage, result: StageResult)
        requires
            old(self).wf(),
        ensures
            final(self).wf(),
            final(self).spec_ctx() == old(self).spec_ctx(),
            final(self).spec_result(stage) == Some(result),
            final(self).spec_status(stage) == Some(status_of_result(result)),
            forall|s: Stage| s != stage ==> final(self).spec_result(s) == old(self).spec_result(s),
            forall|s: Stage| s != stage ==> final(self).spec_status(s) == old(self).spec_status(s),
    {
        proof {
            lemma_stage_index_bijective();
        }
        let i = stage.index_of();
        let status = match &result {
            StageResult::Success { .. } => StageStatus::Completed,
            StageResult::Failed { .. } => StageStatus::Failed,
            StageResult::Skipped { .. } => StageStatus::Skipped,
        };
        self.results[i] = Some(result);
        self.statuses[i] = Some(status);
    }

    /// Marks a stage running, before any of its work is spawned.
    pub fn begin_stage(&mut self, stage: Stage)
        requires
            old(self).wf(),
        ensures
            final(self).wf(),
            final(self).spec_ctx() == old(self).spec_ctx(),
            final(self).spec_status(stage) == Some(StageStatus::Running),
            forall|s: Stage| final(self).spec_result(s) == old(self).spec_result(s),
            forall|s: Stage| s != stage ==> final(self).spec_status(s) == old(self).spec_status(s),
    {
        proof {
            lemma_stage_index_bijective();
        }
        let i = stage.index_of();
        self.statuses[i] = Some(StageStatus::Running);
    }

    /// Begins a stage and decides what must happen for it. The launch stage
    /// runs the chosen artifact, and fails outright when none was chosen.
    /// Any other stage resolves its step list; an empty list settles the
    /// stage as skipped — never as a success — and nothing is spawned for it.
    pub fn prepare_stage(&mut self, stage: Stage, context: &StageContext) -> (r: StageDecision)
        requires
            old(self).wf(),
            context.wf(),
        ensures
            final(self).wf(),
            final(self).spec_ctx() == old(self).spec_ctx(),
            forall|s: Stage| s != stage ==> final(self).spec_status(s) == old(self).spec_status(s),
            forall|s: Stage| s != stage ==> final(self).spec_result(s) == old(self).spec_result(s),
            match r {
                StageDecision::Done(result) => {
                    &&& final(self).spec_result(stage) == Some(result)
                    &&& final(self).spec_status(stage) == Some(status_of_result(result))
                    &&& (match result {
                        StageResult::Skipped { reason } => stage != Stage::Exec && reason@
                            == "No steps to execute"@ && spec_steps_for_stage(
                            stage,
                            context.spec_builder().spec_targets(),
                            context.spec_builder().spec_preset(),
                            context.spec_builder().spec_ninja(),
                            context.spec_builder().spec_root().path@,
                        ).len() == 0,
                        StageResult::Failed { error, duration_ms, steps_executed } => stage
                            == Stage::Exec && context.spec_executable_info() is None && error@
                            == "Exec stage requires executable info"@ && duration_ms == 0
                            && steps_executed == 0,
                        StageResult::Success { .. } => false,
                    })
                },
                StageDecision::RunSteps(steps) => {
                    &&& stage != Stage::Exec
                    &&& steps@.map_values(|s: BuildStep| crate::builder::step_model(s))
                        == spec_steps_for_stage(
                        stage,
                        context.spec_builder().spec_targets(),
                        context.spec_builder().spec_preset(),
                        context.spec_builder().spec_ninja(),
                        context.spec_builder().spec_root().path@,
                    )
                    &&& steps@.len() > 0
                    &&& final(self).spec_status(stage) == Some(StageStatus::Running)
                    &&& final(self).spec_result(stage) == old(self).spec_result(stage)
                },
                StageDecision::RunProgram(info) => {
                    &&& stage == Stage::Exec
                    &&& context.spec_executable_info() == Some(info)
                    &&& final(self).spec_status(stage) == Some(StageStatus::Running)
                    &&& final(self).spec_result(stage) == old(self).spec_result(stage)
                },
            },
    {
        self.begin_stage(stage);

        if stage == Stage::Exec {
            match context.executable_info() {
                Some(info) => {
                    return StageDecision::RunProgram(clone_exec_info(info));
                },
                None => {
                    let result = StageResult::Failed {
                        error: "Exec stage requires executable info".to_owned(),
                        duration_ms: 0,
                        steps_executed: 0,
                    };
                    self.complete_stage(stage, clone_stage_result(&result));
                    return StageDecision::Done(result);
                },
            }
        }

        let steps = context.generate_steps_for_stage(stage);
        if steps.len() == 0 {
            proof {
                assert(spec_steps_for_stage(
                    stage,
                    context.spec_builder().spec_targets(),
                    context.spec_builder().spec_preset(),
                    context.spec_builder().spec_ninja(),
                    context.spec_builder().spec_root().path@,
                ).len() == 0);
            }
            let result = StageResult::Skipped { reason: "No steps to execute".to_owned() };
            self.complete_stage(stage, clone_stage_result(&result));
            return StageDecision::Done(result);
        }
        StageDecision::RunSteps(steps)
    }

    /// How a layer must be scheduled: skipped wholesale once any prior stage
    /// failed; concurrently when every member is concurrency-eligible and
    /// there is more than one; else sequentially.
    pub fn layer_directive(&self, layer: &Vec<Stage>) -> (r: LayerDirective)
        requires
            self.wf(),
        ensures
            r == LayerDirective::SkipAll <==> self.any_failed(),
            r == LayerDirective::RunConcurrent <==> !self.any_failed() && layer@.len() > 1 && (
            forall|k: int| 0 <= k < layer@.len() ==> spec_can_run_concurrent(#[trigger] layer@[k])),
    {
        proof {
            lemma_stage_index_bijective();
        }
        let mut i: usize = 0;
        while i < STAGE_COUNT
            invariant
                i <= STAGE_COUNT,
                self.wf(),
                forall|k: int|
                    0 <= k < i ==> !((#[trigger] self.results@[k]) matches Some(
                        StageResult::Failed { .. },
                    )),
            decreases STAGE_COUNT - i,
        {
            let failed = match &self.results[i] {
                Some(StageResult::Failed { .. }) => true,
                _ => false,
            };
            if failed {
                proof {
                    assert(self.spec_result(stage_of_index(i as int)) matches Some(
                        StageResult::Failed { .. },
                    ));
                }
                return LayerDirective::SkipAll;
            }
            i = i + 1;
        }
        proof {
            assert forall|s: Stage|
                !((#[trigger] self.spec_result(s)) matches Some(StageResult::Failed { .. })) by {
                assert(0 <= stage_index(s) < STAGE_COUNT);
            }
        }

        let mut all_concurrent = true;
        let mut k: usize = 0;
        while k < layer.len()
            invariant
                k <= layer@.len(),
                all_concurrent <==> (forall|q: int|
                    0 <= q < k ==> spec_can_run_concurrent(#[trigger] layer@[q])),
            decreases layer@.len() - k,
        {
            let m = layer[k].metadata();
            if !m.can_run_concurrent {
                all_concurrent = false;
            }
            k = k + 1;
        }
        if all_concurrent && layer.len() > 1 {
            LayerDirective::RunConcurrent
        } else {
            LayerDirective::RunSequential
        }
    }

    /// Fail-fast propagation: settles every stage of the layer as skipped
    /// with the fixed reason, so none of them ever spawns a process.
    pub fn skip_layer(&mut self, layer: &Vec<Stage>)
        requires
            old(self).wf(),
        ensures
            final(self).wf(),
            final(self).spec_ctx() == old(self).spec_ctx(),
            forall|k: int|
                0 <= k < layer@.len() ==> ((#[trigger] final(self).spec_result(layer@[k])) matches Some(
                    StageResult::Skipped { reason },
                ) && reason@ == "Previous stage failed"@),
            forall|k: int|
                0 <= k < layer@.len() ==> final(self).spec_status(#[trigger] layer@[k]) == Some(
                    StageStatus::Skipped,
                ),
            forall|s: Stage|
                !layer@.contains(s) ==> final(self).spec_result(s) == old(self).spec_result(s),
            forall|s: Stage|
                !layer@.contains(s) ==> final(self).spec_status(s) == old(self).spec_status(s),
    {
        broadcast use vstd::seq_lib::lemma_seq_contains_after_push;

        let mut t: usize = 0;
        while t < layer.len()
            invariant
                t <= layer@.len(),
                self.wf(),
                self.spec_ctx() == old(self).spec_ctx(),
                forall|k: int|
                    0 <= k < t ==> ((#[trigger] self.spec_result(layer@[k])) matches Some(
                        StageResult::Skipped { reason },
                    ) && reason@ == "Previous stage failed"@),
                forall|k: int|
                    0 <= k < t ==> self.spec_status(#[trigger] layer@[k]) == Some(
                        StageStatus::Skipped,
                    ),
                forall|s: Stage|
                    !layer@.take(t as int).contains(s) ==> self.spec_result(s) == old(
                        self,
                    ).spec_result(s),
                forall|s: Stage|
                    !layer@.take(t as int).contains(s) ==> self.spec_status(s) == old(
                        self,
                    ).spec_status(s),
            decreases layer@.len() - t,
        {
            let stage = layer[t];
            self.complete_stage(
                stage,
                StageResult::Skipped { reason: "Previous stage failed".to_owned() },
            );
            let ghost tn: int = t + 1;
            proof {
                assert(layer@.take(tn) =~= layer@.take(t as int).push(layer@[t as int]));
                assert forall|k: int|
                    0 <= k < t + 1 implies ((#[trigger] self.spec_result(layer@[k])) matches Some(
                    StageResult::Skipped { reason },
                ) && reason@ == "Previous stage failed"@) by {
                    if layer@[k] == stage {
                    } else {
                        assert(k < t as int);
                    }
                }
                assert forall|k: int|
                    0 <= k < t + 1 implies self.spec_status(#[trigger] layer@[k]) == Some(
                    StageStatus::Skipped,
                ) by {
                    if layer@[k] == stage {
                    } else {
                        assert(k < t as int);
                    }
                }
                assert forall|s: Stage|
                    !layer@.take(tn).contains(s) implies self.spec_result(s) == old(
                    self,
                ).spec_result(s) by {
                    assert(!layer@.take(t as int).contains(s)) by {
                        if layer@.take(t as int).contains(s) {
                            let j = choose|j: int|
                                0 <= j < layer@.take(t as int).len() && layer@.take(t as int)[j]
                                    == s;
                            assert(layer@.take(tn)[j] == s);
                        }
                    }
                    assert(s != layer@[t as int]) by {
                        if s == layer@[t as int] {
                            assert(layer@.take(tn)[t as int] == s);
                        }
                    }
                }
                assert forall|s: Stage|
                    !layer@.take(tn).contains(s) implies self.spec_status(s) == old(
                    self,
                ).spec_status(s) by {
                    assert(!layer@.take(t as int).contains(s)) by {
                        if layer@.take(t as int).contains(s) {
                            let j = choose|j: int|
                                0 <= j < layer@.take(t as int).len() && layer@.take(t as int)[j]
                                    == s;
                            assert(layer@.take(tn)[j] == s);
                        }
                    }
                    assert(s != layer@[t as int]) by {
                        if s == layer@[t as int] {
                            assert(layer@.take(tn)[t as int] == s);
                        }
                    }
                }
            }
            t = t + 1;
            proof {
                assert(layer@.take(t as int) == layer@.take(tn));
            }
        }
        proof {
            assert(layer@.take(layer@.len() as int) =~= layer@);
        }
    }
}

} // verus!
