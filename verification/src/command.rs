//! CMake command-line generation.

use vstd::prelude::*;

use crate::builder::BuildStep;

verus! {

/// Builds cmake invocations for one preset, optionally generating for Ninja.
#[derive(Debug, Clone)]
pub struct CMakeCommands {
    preset: String,
    ninja: bool,
}

/// The argv of a configure invocation.
pub open spec fn spec_configure(
    preset: Seq<char>,
    ninja: bool,
    source_dir: Seq<char>,
    build_dir: Seq<char>,
    prefix_path: Option<Seq<char>>,
) -> Seq<Seq<char>> {
    let base = seq!["cmake"@, "--preset="@ + preset, "-S"@, source_dir, "-B"@, build_dir];
    let with_ninja = if ninja {
        base.push("-GNinja"@)
    } else {
        base
    };
    match prefix_path {
        Some(p) => with_ninja.push("-DCMAKE_PREFIX_PATH="@ + p),
        None => with_ninja,
    }
}

/// The argv that builds everything in `build_dir`.
pub open spec fn spec_build(build_dir: Seq<char>) -> Seq<Seq<char>> {
    seq!["cmake"@, "--build"@, build_dir, "--parallel"@]
}

/// The argv that builds one target in `build_dir`.
pub open spec fn spec_build_target(build_dir: Seq<char>, target: Seq<char>) -> Seq<Seq<char>> {
    seq!["cmake"@, "--build"@, build_dir, "--target"@, target, "--parallel"@]
}

/// The argv that installs from `build_dir` under `install_dir`.
pub open spec fn spec_install(build_dir: Seq<char>, install_dir: Seq<char>) -> Seq<Seq<char>> {
    seq!["cmake"@, "--install"@, build_dir, "--prefix"@, install_dir]
}

/// The argv that removes `paths`.
pub open spec fn spec_clean(paths: Seq<Seq<char>>) -> Seq<Seq<char>> {
    seq!["rm"@, "-rf"@] + paths
}

/// The view of an optional prefix path.
pub open spec fn opt_view(o: Option<String>) -> Option<Seq<char>> {
    match o {
        Some(p) => Some(p@),
        None => None,
    }
}

impl CMakeCommands {
    /// The preset these commands configure and build.
    pub closed spec fn spec_preset(self) -> Seq<char> {
        self.preset@
    }

    /// Whether the Ninja generator is requested.
    pub closed spec fn spec_ninja(self) -> bool {
        self.ninja
    }

    pub fn new(preset: String, ninja: bool) -> (r: Self)
        ensures
            r.spec_preset() == preset@,
            r.spec_ninja() == ninja,
    {
        CMakeCommands { preset, ninja }
    }

    /// A labelled configure step.
    pub fn configure_step(&self, target_name: &str, source_dir: String, build_dir: String) -> (r:
        BuildStep)
        ensures
            r.description@ == "Configuring "@ + target_name@,
            r.commands.deep_view() == spec_configure(
                self.spec_preset(),
                self.spec_ninja(),
                source_dir@,
                build_dir@,
                None,
            ),
    {
        BuildStep::new(
            "Configuring ".to_owned().concat(target_name),
            self.configure(source_dir, build_dir),
        )
    }

    /// A labelled configure step with an explicit CMake prefix path.
    pub fn configure_step_with_prefix(
        &self,
        target_name: &str,
        source_dir: String,
        build_dir: String,
        prefix_path: Option<String>,
    ) -> (r: BuildStep)
        ensures
            r.description@ == "Configuring "@ + target_name@,
            r.commands.deep_view() == spec_configure(
                self.spec_preset(),
                self.spec_ninja(),
                source_dir@,
                build_dir@,
                opt_view(prefix_path),
            ),
    {
        BuildStep::new(
            "Configuring ".to_owned().concat(target_name),
            self.configure_with_prefix(source_dir, build_dir, prefix_path),
        )
    }

    /// A labelled build-everything step.
    pub fn build_step(&self, target_name: &str, build_dir: String) -> (r: BuildStep)
        ensures
            r.description@ == "Building "@ + target_name@,
            r.commands.deep_view() == spec_build(build_dir@),
    {
        BuildStep::new("Building ".to_owned().concat(target_name), self.build(build_dir))
    }

    /// A labelled single-target build step.
    pub fn build_target_step(&self, target_name: &str, build_dir: String, target: &str) -> (r:
        BuildStep)
        ensures
            r.description@ == "Building "@ + target_name@,
            r.commands.deep_view() == spec_build_target(build_dir@, target@),
    {
        BuildStep::new(
            "Building ".to_owned().concat(target_name),
            self.build_target(build_dir, target),
        )
    }

    /// A labelled install step.
    pub fn install_step(&self, target_name: &str, build_dir: String, install_dir: String) -> (r:
        BuildStep)
        ensures
            r.description@ == "Installing "@ + target_name@,
            r.commands.deep_view() == spec_install(build_dir@, install_dir@),
    {
        BuildStep::new(
            "Installing ".to_owned().concat(target_name),
            self.install(build_dir, install_dir),
        )
    }

    /// A labelled clean step.
    pub fn clean_step(&self, target_name: &str, paths: &Vec<String>) -> (r: BuildStep)
        ensures
            r.description@ == "Cleaning "@ + target_name@,
            r.commands.deep_view() == spec_clean(paths.deep_view()),
    {
        BuildStep::new("Cleaning ".to_owned().concat(target_name), self.clean(paths))
    }

    fn configure(&self, source_dir: String, build_dir: String) -> (r: Vec<String>)
        ensures
            r.deep_view() == spec_configure(
                self.spec_preset(),
                self.spec_ninja(),
                source_dir@,
                build_dir@,
                None,
            ),
    {
        self.configure_with_prefix(source_dir, build_dir, None)
    }

    fn configure_with_prefix(
        &self,
        source_dir: String,
        build_dir: String,
        prefix_path: Option<String>,
    ) -> (r: Vec<String>)
        ensures
            r.deep_view() == spec_configure(
                self.spec_preset(),
                self.spec_ninja(),
                source_dir@,
                build_dir@,
                opt_view(prefix_path),
            ),
    {
        let ghost goal = spec_configure(
            self.spec_preset(),
            self.spec_ninja(),
            source_dir@,
            build_dir@,
            opt_view(prefix_path),
        );
        let mut cmd: Vec<String> = Vec::new();
        cmd.push("cmake".to_owned());
        cmd.push("--preset=".to_owned().concat(self.preset.as_str()));
        cmd.push("-S".to_owned());
        cmd.push(source_dir);
        cmd.push("-B".to_owned());
        cmd.push(build_dir);
        if self.ninja {
            cmd.push("-GNinja".to_owned());
        }
        match prefix_path {
            Some(prefix) => {
                cmd.push("-DCMAKE_PREFIX_PATH=".to_owned().concat(prefix.as_str()));
            },
            None => {},
        }
        proof {
            assert(cmd.deep_view() =~~= goal);
        }
        cmd
    }

    fn build(&self, build_dir: String) -> (r: Vec<String>)
        ensures
            r.deep_view() == spec_build(build_dir@),
    {
        let mut cmd: Vec<String> = Vec::new();
        cmd.push("cmake".to_owned());
        cmd.push("--build".to_owned());
        cmd.push(build_dir);
        cmd.push("--parallel".to_owned());
        proof {
            assert(cmd.deep_view() =~~= spec_build(cmd@[2]@));
        }
        cmd
    }

    /// The argv that builds one named target.
    pub fn build_target(&self, build_dir: String, target: &str) -> (r: Vec<String>)
        ensures
            r.deep_view() == spec_build_target(build_dir@, target@),
    {
        let ghost goal = spec_build_target(build_dir@, target@);
        let mut cmd: Vec<String> = Vec::new();
        cmd.push("cmake".to_owned());
        cmd.push("--build".to_owned());
        cmd.push(build_dir);
        cmd.push("--target".to_owned());
        cmd.push(target.to_owned());
        cmd.push("--parallel".to_owned());
        proof {
            assert(cmd.deep_view() =~~= goal);
        }
        cmd
    }

    fn install(&self, build_dir: String, install_dir: String) -> (r: Vec<String>)
        ensures
            r.deep_view() == spec_install(build_dir@, install_dir@),
    {
        let ghost goal = spec_install(build_dir@, install_dir@);
        let mut cmd: Vec<String> = Vec::new();
        cmd.push("cmake".to_owned());
        cmd.push("--install".to_owned());
        cmd.push(build_dir);
        cmd.push("--prefix".to_owned());
        cmd.push(install_dir);
        proof {
            assert(cmd.deep_view() =~~= goal);
        }
        cmd
    }

    /// The argv that removes the given paths.
    pub fn clean(&self, paths: &Vec<String>) -> (r: Vec<String>)
        ensures
            r.deep_view() == spec_clean(paths.deep_view()),
    {
        let mut cmd: Vec<String> = Vec::new();
        cmd.push("rm".to_owned());
        cmd.push("-rf".to_owned());
        let mut i: usize = 0;
        while i < paths.len()
            invariant
                i <= paths@.len(),
                cmd.deep_view() =~~= seq!["rm"@, "-rf"@] + paths.deep_view().take(i as int),
            decreases paths@.len() - i,
        {
            let ghost old_deep = cmd.deep_view();
            cmd.push(paths[i].clone());
            proof {
                assert(cmd.deep_view() =~~= old_deep.push(paths.deep_view()[i as int]));
                assert(paths.deep_view().take(i + 1) =~~= paths.deep_view().take(
                    i as int,
                ).push(paths.deep_view()[i as int]));
                assert(cmd.deep_view() =~~= seq!["rm"@, "-rf"@] + paths.deep_view().take(i + 1));
            }
            i = i + 1;
        }
        proof {
            assert(paths.deep_view().take(paths.deep_view().len() as int) =~~= paths.deep_view());
        }
        cmd
    }
}

} // verus!
