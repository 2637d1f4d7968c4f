use tracing_setup::InitError;
use tracing_setup::TracingConfig;
use tracing_setup::TracingMode;
use tracing_setup::configure_console_logging;

#[test]
fn double_initialization_fails() {
    let first = TracingConfig {
        tracing_mode: TracingMode::Console,
        env_filter: Some("warn".to_string()),
        ..TracingConfig::default()
    };
    assert!(configure_console_logging(first).is_ok());
    // The global sink slot is write-once for the whole process: a second
    // installation attempt must be refused, never silently rerouted.
    let second = TracingConfig {
        tracing_mode: TracingMode::Console,
        env_filter: Some("info".to_string()),
        json: true,
        ..TracingConfig::default()
    };
    assert_eq!(configure_console_logging(second), Err(InitError::AlreadyInitialized));
}
