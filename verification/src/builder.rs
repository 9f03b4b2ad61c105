//! Step generation for whole-project builds: directories, build steps, and
//! clean commands per target.

use vstd::prelude::*;

use crate::command::CMakeCommands;
use crate::command::{spec_build, spec_build_target, spec_clean, spec_configure, spec_install};
use crate::target::{Target, TargetKind};

verus! {

/// A built artifact that can be launched, with the directories around it.
#[derive(Debug, Clone)]
pub struct ExecutableInfo {
    pub path: String,
    pub name: String,
    pub project_dir: String,
    pub build_dir: String,
    pub install_dir: String,
}

/// One externally generated command: a description and an argv.
#[derive(Debug, Clone)]
pub struct BuildStep {
    pub description: String,
    pub commands: Vec<String>,
}

impl BuildStep {
    pub fn new(description: String, commands: Vec<String>) -> (r: Self)
        ensures
            r.description == description,
            r.commands == commands,
    {
        BuildStep { description, commands }
    }

    /// The step as display text: the description, then each argv word
    /// indented on its own line.
    pub fn render(&self) -> (r: String)
        ensures
            r@ == Self::spec_render_lines(
                self.description@,
                self.commands.deep_view(),
                self.commands.deep_view().len() as int,
            ),
    {
        let mut out = self.description.clone();
        out.push('\n');
        let mut i: usize = 0;
        while i < self.commands.len()
            invariant
                i <= self.commands@.len(),
                out@ == Self::spec_render_lines(
                    self.description@,
                    self.commands.deep_view(),
                    i as int,
                ),
            decreases self.commands@.len() - i,
        {
            out.push(' ');
            out.push(' ');
            out.append(self.commands[i].as_str());
            out.push('\n');
            proof {
                assert(out@ =~= Self::spec_render_lines(
                    self.description@,
                    self.commands.deep_view(),
                    i + 1,
                ));
            }
            i = i + 1;
        }
        out
    }

    /// The display text built from the first `n` argv words.
    pub open spec fn spec_render_lines(
        description: Seq<char>,
        commands: Seq<Seq<char>>,
        n: int,
    ) -> Seq<char>
        decreases n,
    {
        if n <= 0 {
            description + seq!['\n']
        } else {
            Self::spec_render_lines(description, commands, n - 1) + seq![' ', ' '] + commands[n - 1]
                + seq!['\n']
        }
    }
}

/// The build directory of a target path under a preset, and the install
/// directory under the root path.
pub open spec fn spec_build_dir(target_path: Seq<char>, preset: Seq<char>) -> Seq<char> {
    target_path + "/builds/"@ + preset
}

pub open spec fn spec_install_dir(root_path: Seq<char>) -> Seq<char> {
    root_path + "/install"@
}

/// The name a target is labelled with: its configured build name, or
/// "project" when none is set.
pub open spec fn spec_target_name(t: Target) -> Seq<char> {
    match t.config.build.name {
        Some(n) => n@,
        None => "project"@,
    }
}

/// The model of one build step: its description and its argv.
pub open spec fn step_model(s: BuildStep) -> (Seq<char>, Seq<Seq<char>>) {
    (s.description@, s.commands.deep_view())
}

/// The step models that `generate_build_all` emits for one target.
pub open spec fn spec_target_build_steps(
    t: Target,
    preset: Seq<char>,
    ninja: bool,
    root_path: Seq<char>,
) -> Seq<(Seq<char>, Seq<Seq<char>>)> {
    let build_dir = spec_build_dir(t.path@, preset);
    let install_dir = spec_install_dir(root_path);
    let base = seq![
        ("Configuring "@ + "CMake"@, spec_configure(preset, ninja, t.path@, build_dir, None)),
        ("Building "@ + spec_target_name(t), spec_build(build_dir)),
    ];
    if t.kind is Installer {
        base.push(("Installing "@ + "artifacts"@, spec_install(build_dir, install_dir)))
    } else {
        base
    }
}

/// The step models that `generate_build_all` emits for the first `n` targets.
pub open spec fn spec_build_all_steps(
    targets: Seq<Target>,
    preset: Seq<char>,
    ninja: bool,
    root_path: Seq<char>,
    n: int,
) -> Seq<(Seq<char>, Seq<Seq<char>>)>
    decreases n,
{
    if n <= 0 {
        Seq::empty()
    } else {
        spec_build_all_steps(targets, preset, ninja, root_path, n - 1) + spec_target_build_steps(
            targets[n - 1],
            preset,
            ninja,
            root_path,
        )
    }
}

/// The clean-step models that `generate_clean_all` emits for the first `n`
/// targets.
pub open spec fn spec_clean_all_steps(
    targets: Seq<Target>,
    preset: Seq<char>,
    root_path: Seq<char>,
    n: int,
) -> Seq<(Seq<char>, Seq<Seq<char>>)>
    decreases n,
{
    if n <= 0 {
        Seq::empty()
    } else {
        spec_clean_all_steps(targets, preset, root_path, n - 1).push(
            (
                "Cleaning "@ + spec_target_name(targets[n - 1]),
                spec_clean(
                    seq![
                        spec_build_dir(targets[n - 1].path@, preset),
                        spec_install_dir(root_path),
                    ],
                ),
            ),
        )
    }
}

/// Generates build steps for every configured target.
#[derive(Debug, Clone)]
pub struct Builder {
    preset: String,
    root: Target,
    targets: Vec<Target>,
    cmake: CMakeCommands,
}

impl Builder {
    /// The preset this builder builds.
    pub closed spec fn spec_preset(self) -> Seq<char> {
        self.preset@
    }

    /// The root target.
    pub closed spec fn spec_root(self) -> Target {
        self.root
    }

    /// The configured targets.
    pub closed spec fn spec_targets(self) -> Seq<Target> {
        self.targets@
    }

    /// Whether cmake invocations ask for the Ninja generator.
    pub closed spec fn spec_ninja(self) -> bool {
        self.cmake.spec_ninja()
    }

    /// The builder's cmake commands agree with its preset.
    pub closed spec fn wf(self) -> bool {
        self.cmake.spec_preset() == self.preset@
    }

    /// A builder over `root` alone, generating for Ninja.
    pub fn new(root: Target, preset: String) -> (r: Self)
        ensures
            r.wf(),
            r.spec_preset() == preset@,
            r.spec_root() == root,
            r.spec_targets().len() == 0,
            r.spec_ninja(),
    {
        let cmake = CMakeCommands::new(preset.clone(), true);
        Builder { root, preset, targets: Vec::new(), cmake }
    }

    /// The same builder with the Ninja request replaced.
    pub fn with_ninja(self, ninja: bool) -> (r: Self)
        requires
            self.wf(),
        ensures
            r.wf(),
            r.spec_preset() == self.spec_preset(),
            r.spec_root() == self.spec_root(),
            r.spec_targets() == self.spec_targets(),
            r.spec_ninja() == ninja,
    {
        let cmake = CMakeCommands::new(self.preset.clone(), ninja);
        Builder { cmake, ..self }
    }

    /// The same builder with the target list replaced.
    pub fn with_targets(self, targets: Vec<Target>) -> (r: Self)
        requires
            self.wf(),
        ensures
            r.wf(),
            r.spec_preset() == self.spec_preset(),
            r.spec_root() == self.spec_root(),
            r.spec_targets() == targets@,
            r.spec_ninja() == self.spec_ninja(),
    {
        Builder { targets, ..self }
    }

    /// The preset name.
    pub fn preset(&self) -> (r: &str)
        ensures
            r@ == self.spec_preset(),
    {
        self.preset.as_str()
    }

    /// The root target.
    pub fn root(&self) -> (r: &Target)
        ensures
            *r == self.spec_root(),
    {
        &self.root
    }

    /// The configured targets.
    pub fn targets(&self) -> (r: &Vec<Target>)
        ensures
            r@ == self.spec_targets(),
    {
        &self.targets
    }

    /// The cmake command table.
    pub fn cmake(&self) -> (r: &CMakeCommands)
        requires
            self.wf(),
        ensures
            r.spec_preset() == self.spec_preset(),
            r.spec_ninja() == self.spec_ninja(),
    {
        &self.cmake
    }

    /// The build and install directories of the root target.
    pub fn get_root_dirs(&self) -> (r: (String, String))
        ensures
            r.0@ == spec_build_dir(self.spec_root().path@, self.spec_preset()),
            r.1@ == spec_install_dir(self.spec_root().path@),
    {
        let build_dir = self.root.path.clone().concat("/builds/").concat(self.preset.as_str());
        let install_dir = self.root.path.clone().concat("/install");
        (build_dir, install_dir)
    }

    /// The build directory of `target_path` under `preset`, and the install
    /// directory under the root target.
    pub fn get_dirs(&self, target_path: String, preset: &str) -> (r: (String, String))
        ensures
            r.0@ == spec_build_dir(target_path@, preset@),
            r.1@ == spec_install_dir(self.spec_root().path@),
    {
        let build_dir = target_path.concat("/builds/").concat(preset);
        let install_dir = self.root.path.clone().concat("/install");
        (build_dir, install_dir)
    }

    /// Configure and build steps for every target, plus an install step for
    /// each installer target.
    pub fn generate_build_all(&self) -> (r: Vec<BuildStep>)
        requires
            self.wf(),
        ensures
            r@.map_values(|s: BuildStep| step_model(s)) == spec_build_all_steps(
                self.spec_targets(),
                self.spec_preset(),
                self.spec_ninja(),
                self.spec_root().path@,
                self.spec_targets().len() as int,
            ),
    {
        let mut steps: Vec<BuildStep> = Vec::new();
        let mut i: usize = 0;
        while i < self.targets.len()
            invariant
                i <= self.targets@.len(),
                self.wf(),
                steps@.map_values(|s: BuildStep| step_model(s)) == spec_build_all_steps(
                    self.spec_targets(),
                    self.spec_preset(),
                    self.spec_ninja(),
                    self.spec_root().path@,
                    i as int,
                ),
            decreases self.targets@.len() - i,
        {
            let target = &self.targets[i];
            let (build_dir, install_dir) = self.get_dirs(target.path.clone(), self.preset.as_str());

            let source_dir = target.path.clone();
            steps.push(self.cmake.configure_step("CMake", source_dir, build_dir.clone()));

            let target_name: &str = match &target.config.build.name {
                Some(n) => n.as_str(),
                None => "project",
            };
            steps.push(self.cmake.build_step(target_name, build_dir.clone()));

            if target.kind == TargetKind::Installer {
                steps.push(self.cmake.install_step("artifacts", build_dir, install_dir));
            }
            proof {
                assert(steps@.map_values(|s: BuildStep| step_model(s)) =~~= spec_build_all_steps(
                    self.spec_targets(),
                    self.spec_preset(),
                    self.spec_ninja(),
                    self.spec_root().path@,
                    i + 1,
                ));
            }
            i = i + 1;
        }
        steps
    }

    /// Configure, build and install steps for one executable's project.
    pub fn generate_build_target_steps(&self, exec_info: &ExecutableInfo) -> (r: Vec<BuildStep>)
        requires
            self.wf(),
        ensures
            r@.len() == 3,
            step_model(r@[0]) == (
                "Configuring "@ + exec_info.name@,
                spec_configure(
                    self.spec_preset(),
                    self.spec_ninja(),
                    exec_info.project_dir@,
                    exec_info.build_dir@,
                    None,
                ),
            ),
            step_model(r@[1]) == (
                "Building "@ + exec_info.name@,
                spec_build_target(exec_info.build_dir@, exec_info.name@),
            ),
            step_model(r@[2]) == (
                "Installing "@ + exec_info.name@,
                spec_install(exec_info.build_dir@, exec_info.install_dir@),
            ),
    {
        let source_dir = exec_info.project_dir.clone();
        let build_dir = exec_info.build_dir.clone();
        let install_dir = exec_info.install_dir.clone();

        let mut steps: Vec<BuildStep> = Vec::new();
        steps.push(self.cmake.configure_step(exec_info.name.as_str(), source_dir, build_dir.clone()));
        steps.push(
            self.cmake.build_target_step(
                exec_info.name.as_str(),
                build_dir.clone(),
                exec_info.name.as_str(),
            ),
        );
        steps.push(self.cmake.install_step(exec_info.name.as_str(), build_dir, install_dir));
        steps
    }

    /// The argv that cleans one executable's build tree.
    pub fn generate_clean_target_command(&self, exec_info: &ExecutableInfo) -> (r: Vec<String>)
        ensures
            r.deep_view() == spec_build_target(exec_info.build_dir@, "clean"@),
    {
        self.cmake.build_target(exec_info.build_dir.clone(), "clean")
    }

    /// A clean step per target, removing its build and install directories.
    pub fn generate_clean_all(&self) -> (r: Vec<BuildStep>)
        requires
            self.wf(),
        ensures
            r@.map_values(|s: BuildStep| step_model(s)) == spec_clean_all_steps(
                self.spec_targets(),
                self.spec_preset(),
                self.spec_root().path@,
                self.spec_targets().len() as int,
            ),
    {
        let mut steps: Vec<BuildStep> = Vec::new();
        let mut i: usize = 0;
        while i < self.targets.len()
            invariant
                i <= self.targets@.len(),
                self.wf(),
                steps@.map_values(|s: BuildStep| step_model(s)) == spec_clean_all_steps(
                    self.spec_targets(),
                    self.spec_preset(),
                    self.spec_root().path@,
                    i as int,
                ),
            decreases self.targets@.len() - i,
        {
            let target = &self.targets[i];
            let (build_dir, install_dir) = self.get_dirs(target.path.clone(), self.preset.as_str());

            let target_name: &str = match &target.config.build.name {
                Some(n) => n.as_str(),
                None => "project",
            };

            let mut paths: Vec<String> = Vec::new();
            paths.push(build_dir);
            paths.push(install_dir);
            steps.push(self.cmake.clean_step(target_name, &paths));
            proof {
                assert(paths.deep_view() =~~= seq![
                    spec_build_dir(self.spec_targets()[i as int].path@, self.spec_preset()),
                    spec_install_dir(self.spec_root().path@),
                ]);
                assert(steps@.map_values(|s: BuildStep| step_model(s)) =~~= spec_clean_all_steps(
                    self.spec_targets(),
                    self.spec_preset(),
                    self.spec_root().path@,
                    i + 1,
                ));
            }
            i = i + 1;
        }
        steps
    }

    /// The argv that removes the two given directories.
    pub fn generate_clean_command(&self, build_dir: String, install_dir: String) -> (r: Vec<
        String,
    >)
        ensures
            r.deep_view() == spec_clean(seq![build_dir@, install_dir@]),
    {
        let ghost goal = spec_clean(seq![build_dir@, install_dir@]);
        let mut paths: Vec<String> = Vec::new();
        paths.push(build_dir);
        paths.push(install_dir);
        let r = self.cmake.clean(&paths);
        proof {
            assert(paths.deep_view() =~~= seq![paths@[0]@, paths@[1]@]);
        }
        r
    }
}

/// The presets this tool knows how to drive, whatever the source tree holds.
pub fn detect_available_presets(_source_dir: &str) -> (r: Vec<String>)
    ensures
        r.deep_view() == seq!["debug"@, "release"@],
{
    let mut r: Vec<String> = Vec::new();
    r.push("debug".to_owned());
    r.push("release".to_owned());
    proof {
        assert(r.deep_view() =~~= seq!["debug"@, "release"@]);
    }
    r
}

} // verus!
