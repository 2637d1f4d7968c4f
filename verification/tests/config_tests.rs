use tracing_setup::TracingConfig;
use tracing_setup::TracingMode;
use tracing_setup::env_filter;
use tracing_setup::resolve_filter;

#[test]
fn default_mode_is_console() {
    assert_eq!(TracingMode::default(), TracingMode::Console);
}

#[test]
fn default_config_values() {
    let config = TracingConfig::default();
    assert_eq!(config.tracing_mode, TracingMode::Console);
    assert!(config.env_filter.is_none());
    assert!(!config.json);
    assert_eq!(config.log_dir.as_str(), "./logs");
    assert!(!config.ansi_file);
    assert!(config.lossy_file);
    assert!(config.ansi_console);
    assert_eq!(config.jaeger_hostname.as_str(), "localhost");
}

#[test]
fn env_filter_explicit_override() {
    let config = TracingConfig {
        env_filter: Some("warn".to_string()),
        ..TracingConfig::default()
    };
    assert_eq!(env_filter(&config).as_str(), "warn");
}

#[test]
fn env_filter_explicit_directive_list() {
    let config = TracingConfig {
        env_filter: Some("debug,core=trace".to_string()),
        ..TracingConfig::default()
    };
    assert_eq!(env_filter(&config).as_str(), "debug,core=trace");
}

#[test]
fn resolve_filter_explicit_wins_over_derived() {
    let resolved = resolve_filter(&Some("warn".to_string()), "debug,core=trace".to_string());
    assert_eq!(resolved.as_str(), "warn");
}

#[test]
fn resolve_filter_takes_derived_directive_verbatim() {
    let resolved = resolve_filter(&None, "debug,core=trace".to_string());
    assert_eq!(resolved.as_str(), "debug,core=trace");
}

#[test]
fn env_filter_derived_is_stable() {
    let config = TracingConfig::default();
    let first = env_filter(&config);
    let second = env_filter(&config);
    assert_eq!(first, second);
}
