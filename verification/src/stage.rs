//! The closed set of pipeline phases and their static metadata.

use vstd::prelude::*;

verus! {

/// How many stage variants exist.
pub const STAGE_COUNT: usize = 8;

/// A named phase of the build pipeline.
#[derive(Debug, Clone, Copy, PartialEq, Eq, Hash, Structural)]
pub enum Stage {
    PreValidation,
    Configure,
    Build,
    Install,
    Clean,
    PostBuild,
    Test,
    Exec,
}

/// Static metadata attached to a stage variant.
#[derive(Debug, Clone)]
pub struct StageMetadata {
    pub description: String,
    pub can_run_concurrent: bool,
    pub is_optional: bool,
}

/// A fixed numbering of the stage variants, used to index per-stage tables.
pub open spec fn stage_index(s: Stage) -> int {
    match s {
        Stage::PreValidation => 0,
        Stage::Configure => 1,
        Stage::Build => 2,
        Stage::Install => 3,
        Stage::Clean => 4,
        Stage::PostBuild => 5,
        Stage::Test => 6,
        Stage::Exec => 7,
    }
}

/// The stage variant that `stage_index` maps to `i`.
pub open spec fn stage_of_index(i: int) -> Stage {
    if i == 0 {
        Stage::PreValidation
    } else if i == 1 {
        Stage::Configure
    } else if i == 2 {
        Stage::Build
    } else if i == 3 {
        Stage::Install
    } else if i == 4 {
        Stage::Clean
    } else if i == 5 {
        Stage::PostBuild
    } else if i == 6 {
        Stage::Test
    } else {
        Stage::Exec
    }
}

pub proof fn lemma_stage_index_bijective()
    ensures
        forall|s: Stage| stage_of_index(#[trigger] stage_index(s)) == s,
        forall|s: Stage| 0 <= #[trigger] stage_index(s) < STAGE_COUNT,
        forall|i: int| 0 <= i < STAGE_COUNT ==> stage_index(#[trigger] stage_of_index(i)) == i,
{
}

/// The human-readable description of each stage.
pub open spec fn spec_description(s: Stage) -> Seq<char> {
    match s {
        Stage::PreValidation => "Pre-validation checks"@,
        Stage::Configure => "CMake configuration"@,
        Stage::Build => "Building project"@,
        Stage::Install => "Installing artifacts"@,
        Stage::Clean => "Cleaning build artifacts"@,
        Stage::PostBuild => "Post-build processing"@,
        Stage::Test => "Running tests"@,
        Stage::Exec => "Executing program"@,
    }
}

/// Whether a stage may share a layer with other concurrent stages.
pub open spec fn spec_can_run_concurrent(s: Stage) -> bool {
    match s {
        Stage::Install => true,
        Stage::PostBuild => true,
        Stage::Test => true,
        _ => false,
    }
}

/// Whether a stage is optional in a pipeline.
pub open spec fn spec_is_optional(s: Stage) -> bool {
    match s {
        Stage::PreValidation => true,
        Stage::PostBuild => true,
        Stage::Test => true,
        _ => false,
    }
}

/// The stages that each stage depends on by default.
pub open spec fn spec_default_dependencies(s: Stage) -> Seq<Stage> {
    match s {
        Stage::PreValidation => seq![],
        Stage::Configure => seq![Stage::PreValidation],
        Stage::Build => seq![Stage::Configure],
        Stage::Install => seq![Stage::Build],
        Stage::PostBuild => seq![Stage::Build],
        Stage::Test => seq![Stage::Build],
        Stage::Exec => seq![Stage::Build, Stage::Install],
        Stage::Clean => seq![],
    }
}

/// The display name of each stage.
pub open spec fn spec_stage_name(s: Stage) -> Seq<char> {
    match s {
        Stage::PreValidation => "PreValidation"@,
        Stage::Configure => "Configure"@,
        Stage::Build => "Build"@,
        Stage::Install => "Install"@,
        Stage::Clean => "Clean"@,
        Stage::PostBuild => "PostBuild"@,
        Stage::Test => "Test"@,
        Stage::Exec => "Exec"@,
    }
}

impl Stage {
    /// The metadata table: description, concurrency-eligibility, optionality.
    pub fn metadata(&self) -> (m: StageMetadata)
        ensures
            m.description@ == spec_description(*self),
            m.can_run_concurrent == spec_can_run_concurrent(*self),
            m.is_optional == spec_is_optional(*self),
    {
        match self {
            Stage::PreValidation => StageMetadata {
                description: "Pre-validation checks".to_owned(),
                can_run_concurrent: false,
                is_optional: true,
            },
            Stage::Configure => StageMetadata {
                description: "CMake configuration".to_owned(),
                can_run_concurrent: false,
                is_optional: false,
            },
            Stage::Build => StageMetadata {
                description: "Building project".to_owned(),
                can_run_concurrent: false,
                is_optional: false,
            },
            Stage::Install => StageMetadata {
                description: "Installing artifacts".to_owned(),
                can_run_concurrent: true,
                is_optional: false,
            },
            Stage::Clean => StageMetadata {
                description: "Cleaning build artifacts".to_owned(),
                can_run_concurrent: false,
                is_optional: false,
            },
            Stage::PostBuild => StageMetadata {
                description: "Post-build processing".to_owned(),
                can_run_concurrent: true,
                is_optional: true,
            },
            Stage::Test => StageMetadata {
                description: "Running tests".to_owned(),
                can_run_concurrent: true,
                is_optional: true,
            },
            Stage::Exec => StageMetadata {
                description: "Executing program".to_owned(),
                can_run_concurrent: false,
                is_optional: false,
            },
        }
    }

    /// The default dependency edges wired by `StageDependencyGraph::from_stages`.
    pub fn default_dependencies(&self) -> (deps: Vec<Stage>)
        ensures
            deps@ == spec_default_dependencies(*self),
    {
        match self {
            Stage::PreValidation => {
                let deps: Vec<Stage> = Vec::new();
                assert(deps@ =~= spec_default_dependencies(*self));
                deps
            },
            Stage::Configure => {
                let mut deps: Vec<Stage> = Vec::new();
                deps.push(Stage::PreValidation);
                assert(deps@ =~= spec_default_dependencies(*self));
                deps
            },
            Stage::Build => {
                let mut deps: Vec<Stage> = Vec::new();
                deps.push(Stage::Configure);
                assert(deps@ =~= spec_default_dependencies(*self));
                deps
            },
            Stage::Install => {
                let mut deps: Vec<Stage> = Vec::new();
                deps.push(Stage::Build);
                assert(deps@ =~= spec_default_dependencies(*self));
                deps
            },
            Stage::PostBuild => {
                let mut deps: Vec<Stage> = Vec::new();
                deps.push(Stage::Build);
                assert(deps@ =~= spec_default_dependencies(*self));
                deps
            },
            Stage::Test => {
                let mut deps: Vec<Stage> = Vec::new();
                deps.push(Stage::Build);
                assert(deps@ =~= spec_default_dependencies(*self));
                deps
            },
            Stage::Exec => {
                let mut deps: Vec<Stage> = Vec::new();
                deps.push(Stage::Build);
                deps.push(Stage::Install);
                assert(deps@ =~= spec_default_dependencies(*self));
                deps
            },
            Stage::Clean => {
                let deps: Vec<Stage> = Vec::new();
                assert(deps@ =~= spec_default_dependencies(*self));
                deps
            },
        }
    }

    /// Every stage variant, in index order.
    pub fn all() -> (stages: Vec<Stage>)
        ensures
            stages@.len() == STAGE_COUNT,
            forall|i: int| 0 <= i < STAGE_COUNT ==> stages@[i] == stage_of_index(i),
    {
        let mut stages: Vec<Stage> = Vec::new();
        stages.push(Stage::PreValidation);
        stages.push(Stage::Configure);
        stages.push(Stage::Build);
        stages.push(Stage::Install);
        stages.push(Stage::Clean);
        stages.push(Stage::PostBuild);
        stages.push(Stage::Test);
        stages.push(Stage::Exec);
        stages
    }

    /// The display name of the stage.
    pub fn name(&self) -> (name: &'static str)
        ensures
            name@ == spec_stage_name(*self),
    {
        match self {
            Stage::PreValidation => "PreValidation",
            Stage::Configure => "Configure",
            Stage::Build => "Build",
            Stage::Install => "Install",
            Stage::Clean => "Clean",
            Stage::PostBuild => "PostBuild",
            Stage::Test => "Test",
            Stage::Exec => "Exec",
        }
    }

    /// The position of this stage under the fixed numbering.
    pub(crate) fn index_of(&self) -> (i: usize)
        ensures
            i == stage_index(*self),
    {
        match self {
            Stage::PreValidation => 0,
            Stage::Configure => 1,
            Stage::Build => 2,
            Stage::Install => 3,
            Stage::Clean => 4,
            Stage::PostBuild => 5,
            Stage::Test => 6,
            Stage::Exec => 7,
        }
    }
}

/// The stage numbered `i` under the fixed numbering.
pub(crate) fn stage_at_index(i: usize) -> (s: Stage)
    requires
        i < STAGE_COUNT,
    ensures
        s == stage_of_index(i as int),
{
    if i == 0 {
        Stage::PreValidation
    } else if i == 1 {
        Stage::Configure
    } else if i == 2 {
        Stage::Build
    } else if i == 3 {
        Stage::Install
    } else if i == 4 {
        Stage::Clean
    } else if i == 5 {
        Stage::PostBuild
    } else if i == 6 {
        Stage::Test
    } else {
        Stage::Exec
    }
}

} // verus!
