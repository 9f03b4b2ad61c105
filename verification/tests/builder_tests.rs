use ignis_core::builder::{Builder, ExecutableInfo};
use ignis_core::command::CMakeCommands;
use ignis_core::config::Config;
use ignis_core::editor::Editor;
use ignis_core::entry::{LogComponent, LogEntry, LogLevel};
use ignis_core::filters::{ComponentFilter, LevelFilter};
use ignis_core::logger::format_log_line;
use ignis_core::stage_context::StageContext;
use ignis_core::target::{Target, TargetKind};
use ignis_core::tui::{apply_count_to_action, InputAction, TabId};

fn target(path: &str, kind: TargetKind, name: Option<&str>) -> Target {
    let mut config = Config::default();
    config.build.name = name.map(|n| n.to_string());
    config.build.kind = Some(
        match kind {
            TargetKind::Root => "root",
            TargetKind::Executable => "executable",
            TargetKind::Installer => "installer",
        }
        .to_string(),
    );
    Target { path: path.to_string(), kind, config }
}

#[test]
fn test_configure_command_layout() {
    let cmake = CMakeCommands::new("debug".to_string(), true);
    let step = cmake.configure_step("CMake", "/src".to_string(), "/src/builds/debug".to_string());
    assert_eq!(step.description, "Configuring CMake");
    assert_eq!(
        step.commands,
        vec!["cmake", "--preset=debug", "-S", "/src", "-B", "/src/builds/debug", "-GNinja"]
    );
}

#[test]
fn test_configure_without_ninja_with_prefix() {
    let cmake = CMakeCommands::new("release".to_string(), false);
    let step = cmake.configure_step_with_prefix(
        "app",
        "/src".to_string(),
        "/b".to_string(),
        Some("/opt/sdk".to_string()),
    );
    assert_eq!(
        step.commands,
        vec!["cmake", "--preset=release", "-S", "/src", "-B", "/b", "-DCMAKE_PREFIX_PATH=/opt/sdk"]
    );
}

#[test]
fn test_build_and_install_commands() {
    let cmake = CMakeCommands::new("debug".to_string(), true);
    assert_eq!(
        cmake.build_step("app", "/b".to_string()).commands,
        vec!["cmake", "--build", "/b", "--parallel"]
    );
    assert_eq!(
        cmake.build_target_step("app", "/b".to_string(), "app").commands,
        vec!["cmake", "--build", "/b", "--target", "app", "--parallel"]
    );
    assert_eq!(
        cmake.install_step("artifacts", "/b".to_string(), "/i".to_string()).commands,
        vec!["cmake", "--install", "/b", "--prefix", "/i"]
    );
    assert_eq!(
        cmake.clean(&vec!["/b".to_string(), "/i".to_string()]),
        vec!["rm", "-rf", "/b", "/i"]
    );
}

#[test]
fn test_builder_dirs_and_steps() {
    let root = target("/proj", TargetKind::Root, None);
    let builder = Builder::new(root, "debug".to_string())
        .with_targets(vec![target("/proj/app", TargetKind::Installer, Some("app"))]);

    let (build_dir, install_dir) = builder.get_dirs("/proj/app".to_string(), "debug");
    assert_eq!(build_dir, "/proj/app/builds/debug");
    assert_eq!(install_dir, "/proj/install");

    let steps = builder.generate_build_all();
    assert_eq!(steps.len(), 3);
    assert_eq!(steps[0].description, "Configuring CMake");
    assert_eq!(steps[1].description, "Building app");
    assert_eq!(steps[2].description, "Installing artifacts");

    let cleans = builder.generate_clean_all();
    assert_eq!(cleans.len(), 1);
    assert_eq!(
        cleans[0].commands,
        vec!["rm", "-rf", "/proj/app/builds/debug", "/proj/install"]
    );
}

#[test]
fn test_generate_build_target_steps() {
    let root = target("/proj", TargetKind::Root, None);
    let builder = Builder::new(root, "debug".to_string());
    let info = ExecutableInfo {
        path: "/proj/app/builds/debug/app".to_string(),
        name: "app".to_string(),
        project_dir: "/proj/app".to_string(),
        build_dir: "/proj/app/builds/debug".to_string(),
        install_dir: "/proj/install".to_string(),
    };
    let steps = builder.generate_build_target_steps(&info);
    assert_eq!(steps.len(), 3);
    assert_eq!(steps[1].commands[3], "--target");
    assert_eq!(steps[1].commands[4], "app");

    let clean = builder.generate_clean_target_command(&info);
    assert_eq!(clean, vec!["cmake", "--build", "/proj/app/builds/debug", "--target", "clean", "--parallel"]);
}

#[test]
fn test_context_step_generation_per_target() {
    let root = target("/proj", TargetKind::Root, None);
    let builder = Builder::new(root, "debug".to_string())
        .with_targets(vec![target("/proj/app", TargetKind::Executable, Some("app"))]);
    let context = StageContext::new(builder);

    let configure = context.generate_steps_for_stage(ignis_core::stage::Stage::Configure);
    assert_eq!(configure.len(), 1);
    assert_eq!(configure[0].commands[3], "/proj/app");

    let build = context.generate_steps_for_stage(ignis_core::stage::Stage::Build);
    assert_eq!(build.len(), 1);
    assert_eq!(build[0].description, "Building app");

    // An executable target installs nothing.
    let install = context.generate_steps_for_stage(ignis_core::stage::Stage::Install);
    assert_eq!(install.len(), 0);
}

#[test]
fn test_config_defaults_and_merge() {
    let config = Config::default();
    assert_eq!(config.history.max_builds, 50);
    assert_eq!(config.history.storage_path, "~/.astralix/build_history.json");
    assert_eq!(config.display.theme, "dark");
    assert_eq!(config.keybindings.leader_key, "Space");
    assert_eq!(config.stages.enabled_stages.len(), 4);

    let mut other = Config::default();
    other.keybindings.leader_bindings.push(("b".to_string(), "build".to_string()));
    let merged = Config::default().merge_with(other);
    assert_eq!(merged.keybindings.leader_bindings.len(), 1);
    assert_eq!(merged.keybindings.leader_bindings[0].1, "build");
}

#[test]
fn test_config_paths_without_tilde_pass_through() {
    let mut config = Config::default();
    config.history.storage_path = "/var/history.json".to_string();
    config.logs.save_directory = "/var/logs".to_string();
    assert_eq!(config.storage_path(), "/var/history.json");
    assert_eq!(config.log_directory(), "/var/logs");
}

#[test]
fn test_target_kind_parsing() {
    let mut build = ignis_core::config::BuildConfig::default();
    build.kind = Some("installer".to_string());
    assert_eq!(build.target_kind(), TargetKind::Installer);
    build.kind = Some("root".to_string());
    assert_eq!(build.target_kind(), TargetKind::Root);
    build.kind = Some("executable".to_string());
    assert_eq!(build.target_kind(), TargetKind::Executable);
}

#[test]
fn test_editor_open_commands() {
    let vim = Editor::new("vim".to_string(), true);
    assert_eq!(
        vim.open_file_command("/src/a.cpp", Some(42), Some(3)),
        vec!["vim", "+42", "/src/a.cpp"]
    );

    let code = Editor::new("code".to_string(), true);
    assert_eq!(
        code.open_file_command("/src/a.cpp", Some(42), Some(3)),
        vec!["code", "-g", "/src/a.cpp:42:3"]
    );

    let emacs = Editor::new("emacs".to_string(), false);
    assert_eq!(
        emacs.open_file_command("/src/a.cpp", Some(42), None),
        vec!["emacs", "+42:0"]
    );

    let nano = Editor::new("nano".to_string(), false);
    assert_eq!(nano.open_file_command("/src/a.cpp", None, None), vec!["nano", "/src/a.cpp"]);
}

#[test]
fn test_tab_navigation() {
    assert_eq!(TabId::from_index(0), Some(TabId::Console));
    assert_eq!(TabId::from_index(4), Some(TabId::History));
    assert_eq!(TabId::from_index(5), None);
    assert_eq!(TabId::Console.index(), 0);
    assert_eq!(TabId::Console.next(), TabId::Summary);
    assert_eq!(TabId::History.next(), TabId::Console);
    assert_eq!(TabId::Console.prev(), TabId::History);
    assert_eq!(TabId::Warnings.prev(), TabId::Performance);
}

#[test]
fn test_apply_count_to_action() {
    assert_eq!(apply_count_to_action(InputAction::ScrollDown, 7), InputAction::ScrollDownCount(7));
    assert_eq!(apply_count_to_action(InputAction::ScrollUp, 2), InputAction::ScrollUpCount(2));
    assert_eq!(apply_count_to_action(InputAction::Quit, 9), InputAction::Quit);
}

#[test]
fn test_log_filters() {
    let entry = LogEntry::new(
        LogLevel::Warning,
        "careful".to_string(),
        "careful".to_string(),
        LogComponent::Compiler,
        0,
    );
    assert!(LevelFilter::new(LogLevel::Info).matches(&entry));
    assert!(!LevelFilter::new(LogLevel::Error).matches(&entry));
    assert_eq!(LevelFilter::new(LogLevel::Error).description(), "level >= ERROR");
    assert!(ComponentFilter::new(LogComponent::Compiler).matches(&entry));
    assert!(!ComponentFilter::new(LogComponent::CMake).matches(&entry));
}

#[test]
fn test_log_entry_location_string() {
    let entry = LogEntry::new(
        LogLevel::Error,
        "boom".to_string(),
        "boom".to_string(),
        LogComponent::Compiler,
        0,
    )
    .with_location("src/main.cpp".to_string(), Some(42), Some(10));
    assert_eq!(entry.location_string(), Some("src/main.cpp:42:10".to_string()));

    let bare = LogEntry::new(
        LogLevel::Info,
        "hi".to_string(),
        "hi".to_string(),
        LogComponent::Build,
        1,
    );
    assert_eq!(bare.location_string(), None);
}

#[test]
fn test_log_line_formatting() {
    assert_eq!(format_log_line(LogLevel::Error, "bad", false), "bad");
    assert_eq!(format_log_line(LogLevel::Error, "bad", true), "\x1b[31mbad\x1b[0m");
}

#[test]
fn test_level_names() {
    assert_eq!(LogLevel::Debug.to_str(), "DEBUG");
    assert_eq!(LogLevel::Fatal.to_str(), "FATAL");
}

#[test]
fn test_build_step_render() {
    let step = ignis_core::builder::BuildStep::new(
        "Building app".to_string(),
        vec!["cmake".to_string(), "--build".to_string()],
    );
    assert_eq!(step.render(), "Building app\n  cmake\n  --build\n");
}

#[test]
fn test_detect_available_presets() {
    assert_eq!(ignis_core::builder::detect_available_presets("/proj"), vec!["debug", "release"]);
}
