//! Per-run stage state: results, statuses, and the step generator that
//! resolves a stage into commands.

use vstd::prelude::*;

use crate::builder::{
    spec_build_dir, spec_install_dir, spec_target_name, step_model, BuildStep, Builder,
    ExecutableInfo,
};
use crate::command::{spec_build, spec_configure};
use crate::stage::Stage;
use crate::target::{Target, TargetKind};

verus! {

/// The terminal outcome of one stage, written exactly once per run.
#[derive(Debug, Clone)]
pub enum StageResult {
    Success { duration_ms: u64, steps_executed: usize },
    Failed { error: String, duration_ms: u64, steps_executed: usize },
    Skipped { reason: String },
}

/// A lightweight progress marker, distinct from the result.
#[derive(Debug, Clone, Copy, PartialEq, Eq, Structural)]
pub enum StageStatus {
    Pending,
    Running,
    Completed,
    Failed,
    Skipped,
}

/// What a stage needs while it runs: the builder that generates its steps
/// and, for the launch stage, the artifact to launch. Event channels stay
/// with the surrounding tool.
pub struct StageContext {
    builder: Builder,
    executable_info: Option<ExecutableInfo>,
}

/// The configure-step models for the first `n` targets.
pub open spec fn spec_configure_steps(
    targets: Seq<Target>,
    preset: Seq<char>,
    ninja: bool,
    n: int,
) -> Seq<(Seq<char>, Seq<Seq<char>>)>
    decreases n,
{
    if n <= 0 {
        Seq::empty()
    } else {
        spec_configure_steps(targets, preset, ninja, n - 1).push(
            (
                "Configuring "@ + "CMake"@,
                spec_configure(
                    preset,
                    ninja,
                    targets[n - 1].path@,
                    spec_build_dir(targets[n - 1].path@, preset),
                    None,
                ),
            ),
        )
    }
}

/// The build-step models for the first `n` targets.
pub open spec fn spec_build_steps(
    targets: Seq<Target>,
    preset: Seq<char>,
    n: int,
) -> Seq<(Seq<char>, Seq<Seq<char>>)>
    decreases n,
{
    if n <= 0 {
        Seq::empty()
    } else {
        spec_build_steps(targets, preset, n - 1).push(
            (
                "Building "@ + spec_target_name(targets[n - 1]),
                spec_build(spec_build_dir(targets[n - 1].path@, preset)),
            ),
        )
    }
}

/// The install-step models for the installer targets among the first `n`.
pub open spec fn spec_install_steps(
    targets: Seq<Target>,
    preset: Seq<char>,
    root_path: Seq<char>,
    n: int,
) -> Seq<(Seq<char>, Seq<Seq<char>>)>
    decreases n,
{
    if n <= 0 {
        Seq::empty()
    } else {
        let earlier = spec_install_steps(targets, preset, root_path, n - 1);
        if targets[n - 1].kind is Installer {
            earlier.push(
                (
                    "Installing "@ + "artifacts"@,
                    crate::command::spec_install(
                        spec_build_dir(targets[n - 1].path@, preset),
                        spec_install_dir(root_path),
                    ),
                ),
            )
        } else {
            earlier
        }
    }
}

/// The step models each stage resolves to. The launch stage asks for no
/// steps: it runs the built artifact instead.
pub open spec fn spec_steps_for_stage(
    stage: Stage,
    targets: Seq<Target>,
    preset: Seq<char>,
    ninja: bool,
    root_path: Seq<char>,
) -> Seq<(Seq<char>, Seq<Seq<char>>)> {
    match stage {
        Stage::PreValidation => Seq::empty(),
        Stage::Configure => spec_configure_steps(targets, preset, ninja, targets.len() as int),
        Stage::Build => spec_build_steps(targets, preset, targets.len() as int),
        Stage::Install => spec_install_steps(targets, preset, root_path, targets.len() as int),
        Stage::Clean => crate::builder::spec_clean_all_steps(
            targets,
            preset,
            root_path,
            targets.len() as int,
        ),
        Stage::PostBuild => Seq::empty(),
        Stage::Test => Seq::empty(),
        Stage::Exec => Seq::empty(),
    }
}

impl StageContext {
    /// The builder the context generates steps with.
    pub closed spec fn spec_builder(self) -> Builder {
        self.builder
    }

    /// The artifact the launch stage would run.
    pub closed spec fn spec_executable_info(self) -> Option<ExecutableInfo> {
        self.executable_info
    }

    /// The context's builder is internally consistent.
    pub open spec fn wf(self) -> bool {
        self.spec_builder().wf()
    }

    /// A context with no executable chosen.
    pub fn new(builder: Builder) -> (r: Self)
        requires
            builder.wf(),
        ensures
            r.wf(),
            r.spec_builder() == builder,
            r.spec_executable_info() is None,
    {
        StageContext { builder, executable_info: None }
    }

    /// The same context carrying an executable for the launch stage.
    pub fn with_executable(self, exec_info: ExecutableInfo) -> (r: Self)
        requires
            self.wf(),
        ensures
            r.wf(),
            r.spec_builder() == self.spec_builder(),
            r.spec_executable_info() == Some(exec_info),
    {
        StageContext { executable_info: Some(exec_info), ..self }
    }

    /// The builder.
    pub fn builder(&self) -> (r: &Builder)
        ensures
            *r == self.spec_builder(),
    {
        &self.builder
    }

    /// The artifact the launch stage would run, when one was chosen.
    pub fn executable_info(&self) -> (r: Option<&ExecutableInfo>)
        ensures
            match r {
                Some(info) => self.spec_executable_info() == Some(*info),
                None => self.spec_executable_info() is None,
            },
    {
        match &self.executable_info {
            Some(info) => Some(info),
            None => None,
        }
    }

    /// Resolves a stage into its ordered step list; an empty list means the
    /// stage has nothing to do.
    pub fn generate_steps_for_stage(&self, stage: Stage) -> (r: Vec<BuildStep>)
        requires
            self.wf(),
        ensures
            r@.map_values(|s: BuildStep| step_model(s)) == spec_steps_for_stage(
                stage,
                self.spec_builder().spec_targets(),
                self.spec_builder().spec_preset(),
                self.spec_builder().spec_ninja(),
                self.spec_builder().spec_root().path@,
            ),
    {
        let r = match stage {
            Stage::PreValidation => Vec::new(),
            Stage::Configure => self.generate_configure_steps(),
            Stage::Build => self.generate_build_steps(),
            Stage::Install => self.generate_install_steps(),
            Stage::Clean => self.builder.generate_clean_all(),
            Stage::PostBuild => Vec::new(),
            Stage::Test => Vec::new(),
            Stage::Exec => Vec::new(),
        };
        proof {
            if r@.len() == 0 {
                assert(r@.map_values(|s: BuildStep| step_model(s)) =~~= Seq::empty());
            }
        }
        r
    }

    fn generate_configure_steps(&self) -> (r: Vec<BuildStep>)
        requires
            self.wf(),
        ensures
            r@.map_values(|s: BuildStep| step_model(s)) == spec_configure_steps(
                self.spec_builder().spec_targets(),
                self.spec_builder().spec_preset(),
                self.spec_builder().spec_ninja(),
                self.spec_builder().spec_targets().len() as int,
            ),
    {
        let mut steps: Vec<BuildStep> = Vec::new();
        let targets = self.builder.targets();
        let mut i: usize = 0;
        while i < targets.len()
            invariant
                i <= targets@.len(),
                self.wf(),
                targets@ == self.spec_builder().spec_targets(),
                steps@.map_values(|s: BuildStep| step_model(s)) == spec_configure_steps(
                    self.spec_builder().spec_targets(),
                    self.spec_builder().spec_preset(),
                    self.spec_builder().spec_ninja(),
                    i as int,
                ),
            decreases targets@.len() - i,
        {
            let target = &targets[i];
            let (build_dir, _install_dir) = self.builder.get_dirs(
                target.path.clone(),
                self.builder.preset(),
            );
            let source_dir = target.path.clone();
            steps.push(self.builder.cmake().configure_step("CMake", source_dir, build_dir));
            proof {
                assert(steps@.map_values(|s: BuildStep| step_model(s)) =~~= spec_configure_steps(
                    self.spec_builder().spec_targets(),
                    self.spec_builder().spec_preset(),
                    self.spec_builder().spec_ninja(),
                    i + 1,
                ));
            }
            i = i + 1;
        }
        steps
    }

    fn generate_build_steps(&self) -> (r: Vec<BuildStep>)
        requires
            self.wf(),
        ensures
            r@.map_values(|s: BuildStep| step_model(s)) == spec_build_steps(
                self.spec_builder().spec_targets(),
                self.spec_builder().spec_preset(),
                self.spec_builder().spec_targets().len() as int,
            ),
    {
        let mut steps: Vec<BuildStep> = Vec::new();
        let targets = self.builder.targets();
        let mut i: usize = 0;
        while i < targets.len()
            invariant
                i <= targets@.len(),
                self.wf(),
                targets@ == self.spec_builder().spec_targets(),
                steps@.map_values(|s: BuildStep| step_model(s)) == spec_build_steps(
                    self.spec_builder().spec_targets(),
                    self.spec_builder().spec_preset(),
                    i as int,
                ),
            decreases targets@.len() - i,
        {
            let target = &targets[i];
            let (build_dir, _install_dir) = self.builder.get_dirs(
                target.path.clone(),
                self.builder.preset(),
            );
            let target_name: &str = match &target.config.build.name {
                Some(n) => n.as_str(),
                None => "project",
            };
            steps.push(self.builder.cmake().build_step(target_name, build_dir));
            proof {
                assert(steps@.map_values(|s: BuildStep| step_model(s)) =~~= spec_build_steps(
                    self.spec_builder().spec_targets(),
                    self.spec_builder().spec_preset(),
                    i + 1,
                ));
            }
            i = i + 1;
        }
        steps
    }

    fn generate_install_steps(&self) -> (r: Vec<BuildStep>)
        requires
            self.wf(),
        ensures
            r@.map_values(|s: BuildStep| step_model(s)) == spec_install_steps(
                self.spec_builder().spec_targets(),
                self.spec_builder().spec_preset(),
                self.spec_builder().spec_root().path@,
                self.spec_builder().spec_targets().len() as int,
            ),
    {
        let mut steps: Vec<BuildStep> = Vec::new();
        let targets = self.builder.targets();
        let mut i: usize = 0;
        while i < targets.len()
            invariant
                i <= targets@.len(),
                self.wf(),
                targets@ == self.spec_builder().spec_targets(),
                steps@.map_values(|s: BuildStep| step_model(s)) == spec_install_steps(
                    self.spec_builder().spec_targets(),
                    self.spec_builder().spec_preset(),
                    self.spec_builder().spec_root().path@,
                    i as int,
                ),
            decreases targets@.len() - i,
        {
            let target = &targets[i];
            if target.kind == TargetKind::Installer {
                let (build_dir, install_dir) = self.builder.get_dirs(
                    target.path.clone(),
                    self.builder.preset(),
                );
                steps.push(self.builder.cmake().install_step("artifacts", build_dir, install_dir));
            }
            proof {
                assert(steps@.map_values(|s: BuildStep| step_model(s)) =~~= spec_install_steps(
                    self.spec_builder().spec_targets(),
                    self.spec_builder().spec_preset(),
                    self.spec_builder().spec_root().path@,
                    i + 1,
                ));
            }
            i = i + 1;
        }
        steps
    }
}

} // verus!
