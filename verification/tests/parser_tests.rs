use ignis_core::executor::{MetricType, MetricVisualization, RuntimeMetric};
use ignis_core::parser::{strip_ansi, CompilerOutputParser, MetricParser};
use ignis_core::text::{i32_to_string, str_contains, str_ends_with, to_lower, u64_to_string};

#[test]
fn test_ansi_stripping() {
    let ansi_str = "\x1b[31mError:\x1b[0m Something went wrong";
    let stripped = strip_ansi(ansi_str);
    assert_eq!(stripped, "Error: Something went wrong");
}

#[test]
fn test_ansi_stripping_leaves_plain_text() {
    assert_eq!(strip_ansi("plain line"), "plain line");
    assert_eq!(strip_ansi("\x1b[0m"), "");
    assert_eq!(strip_ansi("\x1b[38;5m bold"), " bold");
    // An escape without its closing letter is kept as it stands.
    assert_eq!(strip_ansi("\x1b[31x"), "\x1b[31x");
}

#[test]
fn test_parser_index_bookkeeping() {
    let mut parser = CompilerOutputParser::new();
    assert_eq!(parser.next_index(), 0);
    assert_eq!(parser.next_index(), 1);
    parser.reset();
    assert_eq!(parser.next_index(), 0);
}

#[test]
fn test_metric_line_parsing() {
    let metric = MetricParser::parse_metric_line("[IGNIS_METRIC] render:fps=60", 42)
        .expect("metric expected");
    assert_eq!(metric.category, "render");
    assert_eq!(metric.key, "fps");
    assert_eq!(metric.value, "60");
    assert_eq!(metric.timestamp, 42);
    assert_eq!(metric.explicit_visualization, None);
}

#[test]
fn test_metric_line_with_visualization() {
    let metric = MetricParser::parse_metric_line("[IGNIS_METRIC] ui:load_pct=75:gauge", 1)
        .expect("metric expected");
    assert_eq!(metric.category, "ui");
    assert_eq!(metric.key, "load_pct");
    assert_eq!(metric.value, "75");
    assert_eq!(metric.explicit_visualization, Some(MetricVisualization::Gauge));
}

#[test]
fn test_metric_line_rejects_malformed_input() {
    assert!(MetricParser::parse_metric_line("plain output", 0).is_none());
    assert!(MetricParser::parse_metric_line("[IGNIS_METRIC] nocolon", 0).is_none());
    assert!(MetricParser::parse_metric_line("[IGNIS_METRIC] cat:noequals", 0).is_none());
    assert!(MetricParser::parse_metric_line("[IGNIS_METRIC] cat:a=b=c", 0).is_none());
}

#[test]
fn test_visualization_keywords() {
    assert_eq!(MetricVisualization::from_str("sparkline"), Some(MetricVisualization::Sparkline));
    assert_eq!(MetricVisualization::from_str("SPARKLINE"), Some(MetricVisualization::Sparkline));
    assert_eq!(MetricVisualization::from_str("Table"), Some(MetricVisualization::Table));
    assert_eq!(MetricVisualization::from_str("auto"), Some(MetricVisualization::Auto));
    assert_eq!(MetricVisualization::from_str("nonsense"), None);
}

fn metric_with_key(key: &str) -> RuntimeMetric {
    RuntimeMetric {
        key: key.to_string(),
        value: "1".to_string(),
        timestamp: 0,
        category: "c".to_string(),
        explicit_visualization: None,
    }
}

#[test]
fn test_metric_type_classification() {
    assert_eq!(metric_with_key("FPS").metric_type(), MetricType::FPS);
    assert_eq!(metric_with_key("cpu_percent").metric_type(), MetricType::Percentage);
    assert_eq!(metric_with_key("load_pct").metric_type(), MetricType::Percentage);
    assert_eq!(metric_with_key("frame_time_ms").metric_type(), MetricType::TimeMillis);
    assert_eq!(metric_with_key("draw_calls").metric_type(), MetricType::Count);
    assert_eq!(metric_with_key("heap").metric_type(), MetricType::Memory);
    assert_eq!(metric_with_key("width").metric_type(), MetricType::Dimension);
    assert_eq!(metric_with_key("whatever").metric_type(), MetricType::Generic);
}

#[test]
fn test_metric_visualization_defaults() {
    assert_eq!(metric_with_key("fps").visualization(), MetricVisualization::Sparkline);
    assert_eq!(metric_with_key("cpu_percent").visualization(), MetricVisualization::Gauge);
    assert_eq!(metric_with_key("whatever").visualization(), MetricVisualization::Text);
    let mut explicit = metric_with_key("fps");
    explicit.explicit_visualization = Some(MetricVisualization::Bar);
    assert_eq!(explicit.visualization(), MetricVisualization::Bar);
}

#[test]
fn test_text_utilities() {
    assert_eq!(to_lower("MiXeD_09"), "mixed_09");
    assert!(str_contains("frame_time_ms", "time"));
    assert!(!str_contains("fps", "time"));
    assert!(str_ends_with("load_pct", "_pct"));
    assert!(!str_ends_with("pct_load", "_pct"));
    assert_eq!(u64_to_string(0), "0");
    assert_eq!(u64_to_string(90210), "90210");
    assert_eq!(i32_to_string(-7), "-7");
    assert_eq!(i32_to_string(144), "144");
}
