use tracing_appender::non_blocking::NonBlockingBuilder;
use tracing_setup::InitError;
use tracing_setup::TracingConfig;
use tracing_setup::TracingMode;
use tracing_setup::configure_file_logging;

#[test]
fn file_subscriber_installs_exactly_once() {
    let (writer, _guard) = NonBlockingBuilder::default().lossy(false).finish(Vec::new());
    let first = TracingConfig {
        tracing_mode: TracingMode::File,
        env_filter: Some("info".to_string()),
        json: true,
        ..TracingConfig::default()
    };
    assert!(configure_file_logging(first, writer).is_ok());
    let (writer2, _guard2) = NonBlockingBuilder::default().lossy(true).finish(Vec::new());
    let second = TracingConfig {
        tracing_mode: TracingMode::File,
        env_filter: Some("warn".to_string()),
        ..TracingConfig::default()
    };
    assert_eq!(
        configure_file_logging(second, writer2),
        Err(InitError::AlreadyInitialized)
    );
}
