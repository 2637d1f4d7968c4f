use tracing_appender::non_blocking::NonBlockingBuilder;
use tracing_setup::InitError;
use tracing_setup::TracingConfig;
use tracing_setup::TracingMode;
use tracing_setup::configure_combined_logging;

#[test]
fn combined_subscriber_installs_exactly_once() {
    let (writer, _guard) = NonBlockingBuilder::default().lossy(true).finish(Vec::new());
    let first = TracingConfig {
        tracing_mode: TracingMode::ConsoleAndFile,
        env_filter: Some("info".to_string()),
        ..TracingConfig::default()
    };
    assert!(configure_combined_logging(first, writer).is_ok());
    let (writer2, _guard2) = NonBlockingBuilder::default().lossy(true).finish(Vec::new());
    let second = TracingConfig {
        tracing_mode: TracingMode::ConsoleAndFile,
        env_filter: Some("warn".to_string()),
        json: true,
        ..TracingConfig::default()
    };
    assert_eq!(
        configure_combined_logging(second, writer2),
        Err(InitError::AlreadyInitialized)
    );
}
