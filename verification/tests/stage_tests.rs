use ignis_core::stage::Stage;

#[test]
fn test_stage_metadata() {
    let stage = Stage::Build;
    let metadata = stage.metadata();
    assert_eq!(metadata.description, "Building project");
    assert!(!metadata.can_run_concurrent);
    assert!(!metadata.is_optional);
}

#[test]
fn test_stage_dependencies() {
    assert_eq!(Stage::PreValidation.default_dependencies(), vec![]);
    assert_eq!(Stage::Configure.default_dependencies(), vec![Stage::PreValidation]);
    assert_eq!(Stage::Build.default_dependencies(), vec![Stage::Configure]);
    assert_eq!(Stage::Install.default_dependencies(), vec![Stage::Build]);
    assert_eq!(Stage::Exec.default_dependencies(), vec![Stage::Build, Stage::Install]);
}

#[test]
fn test_stage_display() {
    assert_eq!(Stage::Build.name(), "Build");
    assert_eq!(Stage::Configure.name(), "Configure");
}

#[test]
fn test_all_stages() {
    let all = Stage::all();
    assert_eq!(all.len(), 8);
    assert_eq!(all[0], Stage::PreValidation);
    assert_eq!(all[7], Stage::Exec);
}

#[test]
fn test_concurrent_metadata() {
    assert!(Stage::Install.metadata().can_run_concurrent);
    assert!(Stage::PostBuild.metadata().can_run_concurrent);
    assert!(Stage::Test.metadata().can_run_concurrent);
    assert!(!Stage::Exec.metadata().can_run_concurrent);
}
