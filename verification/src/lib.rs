//! Diagnostics initialization: selects and composes the process-wide
//! structured-logging sink topology (console, file, console+file, or a live
//! trace collector) from a declarative configuration value.

pub mod jaeger;
pub mod log_path;
pub mod tracing_setup;

pub use jaeger::agent_endpoint;
pub use jaeger::init_jaeger;
pub use jaeger::probe_endpoint;
pub use log_path::Timestamp;
pub use log_path::create_log_filename;
pub use log_path::decimal_padded;
pub use log_path::log_filename_at;
pub use tracing_setup::InitError;
pub use tracing_setup::SinkPlan;
pub use tracing_setup::Topology;
pub use tracing_setup::TracingConfig;
pub use tracing_setup::TracingMode;
pub use tracing_setup::configure_combined_logging;
pub use tracing_setup::configure_console_logging;
pub use tracing_setup::configure_file_logging;
pub use tracing_setup::env_filter;
pub use tracing_setup::init_plan;
pub use tracing_setup::resolve_filter;
