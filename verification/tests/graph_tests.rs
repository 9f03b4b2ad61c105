use ignis_core::dependency_graph::{GraphError, StageDependencyGraph};
use ignis_core::stage::Stage;

#[test]
fn test_simple_linear_dependency() {
    let stages = vec![Stage::Configure, Stage::Build, Stage::Install];
    let graph = StageDependencyGraph::from_stages(stages);

    let result = graph.topological_sort();
    assert!(result.is_ok());

    let layers = result.unwrap();
    assert_eq!(layers.len(), 3);
    assert_eq!(layers[0], vec![Stage::Configure]);
    assert_eq!(layers[1], vec![Stage::Build]);
    assert_eq!(layers[2], vec![Stage::Install]);
}

#[test]
fn test_concurrent_stages() {
    let stages = vec![Stage::Build, Stage::Install, Stage::PostBuild];
    let graph = StageDependencyGraph::from_stages(stages);

    let result = graph.topological_sort();
    assert!(result.is_ok());

    let layers = result.unwrap();
    assert_eq!(layers.len(), 2);
    assert_eq!(layers[0], vec![Stage::Build]);
    assert_eq!(layers[1].len(), 2);
    assert!(layers[1].contains(&Stage::Install));
    assert!(layers[1].contains(&Stage::PostBuild));
}

#[test]
fn test_circular_dependency() {
    let mut graph = StageDependencyGraph::new();
    graph.add_stage(Stage::Build);
    graph.add_stage(Stage::Configure);

    graph.add_dependency(Stage::Build, Stage::Configure);
    graph.add_dependency(Stage::Configure, Stage::Build);

    let result = graph.topological_sort();
    assert!(result.is_err());

    if let Err(GraphError::CircularDependency(_)) = result {
    } else {
        panic!("Expected CircularDependency error");
    }
}

#[test]
fn test_empty_graph() {
    let graph = StageDependencyGraph::new();
    let result = graph.topological_sort();
    assert!(result.is_ok());
    assert_eq!(result.unwrap(), vec![] as Vec<Vec<Stage>>);
}

#[test]
fn test_single_stage() {
    let mut graph = StageDependencyGraph::new();
    graph.add_stage(Stage::Build);

    let result = graph.topological_sort();
    assert!(result.is_ok());

    let layers = result.unwrap();
    assert_eq!(layers.len(), 1);
    assert_eq!(layers[0], vec![Stage::Build]);
}

#[test]
fn test_complex_dependency_graph() {
    let stages = vec![
        Stage::PreValidation,
        Stage::Configure,
        Stage::Build,
        Stage::Install,
        Stage::PostBuild,
    ];
    let graph = StageDependencyGraph::from_stages(stages);

    let result = graph.topological_sort();
    assert!(result.is_ok());

    let layers = result.unwrap();
    assert_eq!(layers.len(), 4);
    assert_eq!(layers[0], vec![Stage::PreValidation]);
    assert_eq!(layers[1], vec![Stage::Configure]);
    assert_eq!(layers[2], vec![Stage::Build]);
    assert_eq!(layers[3].len(), 2);
    assert!(layers[3].contains(&Stage::Install));
    assert!(layers[3].contains(&Stage::PostBuild));
}

#[test]
fn test_get_dependencies() {
    let stages = vec![Stage::Configure, Stage::Build];
    let graph = StageDependencyGraph::from_stages(stages);

    let deps = graph.get_dependencies(Stage::Build);
    assert_eq!(deps, vec![Stage::Configure]);

    let deps = graph.get_dependencies(Stage::Configure);
    assert_eq!(deps.len(), 0);
}

#[test]
fn test_get_dependencies_twice() {
    let stages = vec![Stage::Configure, Stage::Build, Stage::Install];
    let graph = StageDependencyGraph::from_stages(stages);

    let first = graph.get_dependencies(Stage::Build);
    let second = graph.get_dependencies(Stage::Build);
    assert_eq!(first, second);
}

#[test]
fn test_mutual_dependency_stranded_set() {
    let mut graph = StageDependencyGraph::new();
    graph.add_dependency(Stage::Build, Stage::Configure);
    graph.add_dependency(Stage::Configure, Stage::Build);

    match graph.topological_sort() {
        Err(GraphError::CircularDependency(stranded)) => {
            assert!(stranded.contains(&Stage::Build));
            assert!(stranded.contains(&Stage::Configure));
            assert_eq!(stranded.len(), 2);
        }
        _ => panic!("Expected CircularDependency error"),
    }
}

#[test]
fn test_self_dependency_is_circular() {
    let mut graph = StageDependencyGraph::new();
    graph.add_dependency(Stage::Build, Stage::Build);

    match graph.topological_sort() {
        Err(GraphError::CircularDependency(stranded)) => {
            assert_eq!(stranded, vec![Stage::Build]);
        }
        _ => panic!("Expected CircularDependency error"),
    }
}

#[test]
fn test_cycle_does_not_strand_independent_stage() {
    let mut graph = StageDependencyGraph::new();
    graph.add_stage(Stage::Clean);
    graph.add_dependency(Stage::Build, Stage::Configure);
    graph.add_dependency(Stage::Configure, Stage::Build);

    match graph.topological_sort() {
        Err(GraphError::CircularDependency(stranded)) => {
            assert!(!stranded.contains(&Stage::Clean));
            assert_eq!(stranded.len(), 2);
        }
        _ => panic!("Expected CircularDependency error"),
    }
}

#[test]
fn test_duplicate_requested_stages() {
    let stages = vec![Stage::Configure, Stage::Build, Stage::Configure];
    let graph = StageDependencyGraph::from_stages(stages);

    let layers = graph.topological_sort().unwrap();
    assert_eq!(layers.len(), 2);
    assert_eq!(layers[0], vec![Stage::Configure]);
    assert_eq!(layers[1], vec![Stage::Build]);
}

#[test]
fn test_stages_listing() {
    let graph = StageDependencyGraph::from_stages(vec![Stage::Build, Stage::Configure]);
    let listed = graph.stages();
    assert_eq!(listed, vec![Stage::Configure, Stage::Build]);
}
