use tracing_setup::InitError;
use tracing_setup::TracingConfig;
use tracing_setup::TracingMode;
use tracing_setup::init_jaeger;

#[test]
fn jaeger_install_reports_only_exporter_failures() {
    let first = TracingConfig {
        tracing_mode: TracingMode::JaegerLive,
        env_filter: Some("info".to_string()),
        ..TracingConfig::default()
    };
    let outcome = init_jaeger(first);
    // The export transport is fire-and-forget UDP, so building the pipeline
    // succeeds even with no collector running; any refusal surfaces as the
    // exporter error.
    assert!(outcome.is_ok() || outcome == Err(InitError::TraceExporter));
    if outcome.is_ok() {
        // The global slot is write-once: a repeat installation is refused.
        let second = TracingConfig {
            tracing_mode: TracingMode::JaegerLive,
            env_filter: Some("warn".to_string()),
            ..TracingConfig::default()
        };
        assert_eq!(init_jaeger(second), Err(InitError::TraceExporter));
    }
}
