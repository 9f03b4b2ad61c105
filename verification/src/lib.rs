pub mod builder;
pub mod cli;
pub mod command;
pub mod config;
pub mod dependency_graph;
pub mod editor;
pub mod entry;
pub mod executor;
pub mod filters;
pub mod logger;
pub mod parser;
pub mod stage;
pub mod stage_context;
pub mod stage_runner;
pub mod target;
pub mod text;
pub mod tui;

pub use builder::{BuildStep, Builder, ExecutableInfo};
pub use cli::{Cli, HistoryCommands, HistoryType};
pub use config::Config;
pub use dependency_graph::{GraphError, StageDependencyGraph};
pub use executor::{ExecutionResult, MetricType, MetricVisualization, RuntimeMetric, StepUpdate};
pub use stage::{Stage, StageMetadata};
pub use stage_context::{StageContext, StageResult, StageStatus};
pub use stage_runner::{BuildContext, StageRunner};
pub use tui::{BuildAction, ExecAction};
