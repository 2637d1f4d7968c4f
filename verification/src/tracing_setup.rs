//! Configuration values for the diagnostics initializer and resolution of the
//! event-filter directive.

use vstd::prelude::*;
use crate::jaeger::agent_endpoint;
use crate::jaeger::agent_port_suffix;
use crate::jaeger::probe_endpoint;
use crate::jaeger::probe_port_suffix;
use crate::log_path::Timestamp;
use crate::log_path::log_filename_at;
use crate::log_path::log_path_spec;
use tracing_subscriber::layer::SubscriberExt;

verus! {

/// Selects the sink topology that initialization installs.
#[derive(Debug, Clone, PartialEq, Eq, Structural)]
pub enum TracingMode {
    /// Log to the console only
    Console,
    /// Log to a file only
    File,
    /// Log to both the console and a file
    ConsoleAndFile,
    /// Log to a live Jaeger instance. This automatically logs to the console as well
    JaegerLive,
}

impl Default for TracingMode {
    fn default() -> (r: Self)
        ensures
            r == TracingMode::Console,
    {
        TracingMode::Console
    }
}

/// Holds information about how tracing should be configured.
///
/// Constructed once by the caller and consumed by initialization; `tracing_mode`
/// is fixed for the lifetime of the process's diagnostics session.
#[derive(Debug)]
pub struct TracingConfig {
    pub tracing_mode: TracingMode,
    /// Filter directive for event filtering. When absent, the directive is
    /// derived from the conventional environment variable.
    pub env_filter: Option<String>,
    /// Use JSON formatting for logs. This applies to all tracing modes except
    /// the live trace-collector mode.
    pub json: bool,
    /// When writing to a file, this is the directory to write to.
    pub log_dir: String,
    /// ANSI colors in the file
    pub ansi_file: bool,
    /// Lossy file writing: drop events under backpressure instead of blocking.
    pub lossy_file: bool,
    /// ANSI colors in the console
    pub ansi_console: bool,
    /// The hostname of the jaeger instance, if applicable
    pub jaeger_hostname: String,
}

impl Default for TracingConfig {
    fn default() -> (r: Self)
        ensures
            r.tracing_mode == TracingMode::Console,
            r.env_filter is None,
            r.json == false,
            r.log_dir@ == "./logs"@,
            r.ansi_file == false,
            r.lossy_file == true,
            r.ansi_console == true,
            r.jaeger_hostname@ == "localhost"@,
    {
        TracingConfig {
            tracing_mode: TracingMode::Console,
            env_filter: None,
            json: false,
            log_dir: "./logs".to_owned(),
            ansi_file: false,
            lossy_file: true,
            ansi_console: true,
            jaeger_hostname: "localhost".to_owned(),
        }
    }
}

/// Failure of an installation step. Either failure is fatal to the caller:
/// diagnostics must be available before the rest of the program can be
/// trusted to report its own errors.
#[derive(Debug, Clone, Copy, PartialEq, Eq, Structural)]
pub enum InitError {
    /// A process-wide default sink was already installed; a second
    /// installation must fail rather than silently reroute events.
    AlreadyInitialized,
    /// The trace-collector exporter pipeline could not be installed, or the
    /// composite it belongs to was refused by the global sink slot.
    TraceExporter,
}

/// The sink topology that initialization installs, with every setting each
/// destination needs resolved to a plain value.
#[derive(Debug)]
pub enum Topology {
    /// A single formatter bound to standard output.
    Console { ansi: bool, json: bool },
    /// A single formatter bound to a buffered writer on the file at `path`.
    File { path: String, ansi: bool, json: bool, lossy: bool },
    /// Two formatter layers, console and file, fanned out from one registry.
    ConsoleAndFile {
        path: String,
        ansi_console: bool,
        ansi_file: bool,
        json: bool,
        lossy: bool,
    },
    /// A console formatter plus a span exporter shipping to a live collector.
    JaegerLive { probe_endpoint: String, agent_endpoint: String },
}

/// The one decision initialization acts on: a single resolved filter
/// directive and the topology it gates.
#[derive(Debug)]
pub struct SinkPlan {
    /// The filter directive; every layer of the topology is gated by this one
    /// value, never by a per-layer re-resolution.
    pub filter: String,
    pub topology: Topology,
}

impl SinkPlan {
    /// The filter directive the console-bound layer is gated by, if the
    /// topology has such a layer.
    pub open spec fn console_layer_filter(self) -> Option<Seq<char>> {
        match self.topology {
            Topology::Console { .. } => Some(self.filter@),
            Topology::File { .. } => None,
            Topology::ConsoleAndFile { .. } => Some(self.filter@),
            Topology::JaegerLive { .. } => Some(self.filter@),
        }
    }

    /// The filter directive the file-bound layer is gated by, if the topology
    /// has such a layer.
    pub open spec fn file_layer_filter(self) -> Option<Seq<char>> {
        match self.topology {
            Topology::Console { .. } => None,
            Topology::File { .. } => Some(self.filter@),
            Topology::ConsoleAndFile { .. } => Some(self.filter@),
            Topology::JaegerLive { .. } => None,
        }
    }

    /// Whether executing this plan creates a file-backed sink, and so hands
    /// the caller a flush guard to retain until shutdown.
    pub fn needs_flush_guard(&self) -> (r: bool)
        ensures
            r <==> (self.topology is File || self.topology is ConsoleAndFile),
    {
        match &self.topology {
            Topology::File { .. } => true,
            Topology::ConsoleAndFile { .. } => true,
            Topology::Console { .. } => false,
            Topology::JaegerLive { .. } => false,
        }
    }
}

/// Law: the combined console+file topology applies one filter decision
/// identically to both destinations — the console layer and the file layer
/// are gated by the same directive, not by two independent resolutions.
pub proof fn lemma_combined_filter_shared(plan: SinkPlan)
    requires
        plan.topology is ConsoleAndFile,
    ensures
        plan.console_layer_filter() == plan.file_layer_filter(),
{
}

/// Resolve the configuration to the plan initialization executes: exactly one
/// topology, selected by exhaustive dispatch on the mode, with the filter
/// resolved once and the file path fixed from the clock reading `now`.
pub fn init_plan(config: &TracingConfig, now: &Timestamp) -> (plan: SinkPlan)
    ensures
        config.env_filter matches Some(f) ==> plan.filter@ == f@,
        match config.tracing_mode {
            TracingMode::Console => plan.topology matches Topology::Console { ansi, json }
                && ansi == config.ansi_console && json == config.json,
            TracingMode::File => plan.topology matches Topology::File { path, ansi, json, lossy }
                && path@ == log_path_spec(config.log_dir@, *now) && ansi == config.ansi_file
                && json == config.json && lossy == config.lossy_file,
            TracingMode::ConsoleAndFile => plan.topology matches Topology::ConsoleAndFile {
                path,
                ansi_console,
                ansi_file,
                json,
                lossy,
            } && path@ == log_path_spec(config.log_dir@, *now)
                && ansi_console == config.ansi_console && ansi_file == config.ansi_file
                && json == config.json && lossy == config.lossy_file,
            TracingMode::JaegerLive => plan.topology matches Topology::JaegerLive {
                probe_endpoint,
                agent_endpoint,
            } && probe_endpoint@ == config.jaeger_hostname@ + probe_port_suffix()
                && agent_endpoint@ == config.jaeger_hostname@ + agent_port_suffix(),
        },
{
    let filter = env_filter(config);
    match config.tracing_mode {
        TracingMode::Console => SinkPlan {
            filter,
            topology: Topology::Console { ansi: config.ansi_console, json: config.json },
        },
        TracingMode::File => {
            let path = log_filename_at(config.log_dir.as_str(), now);
            SinkPlan {
                filter,
                topology: Topology::File {
                    path,
                    ansi: config.ansi_file,
                    json: config.json,
                    lossy: config.lossy_file,
                },
            }
        },
        TracingMode::ConsoleAndFile => {
            let path = log_filename_at(config.log_dir.as_str(), now);
            SinkPlan {
                filter,
                topology: Topology::ConsoleAndFile {
                    path,
                    ansi_console: config.ansi_console,
                    ansi_file: config.ansi_file,
                    json: config.json,
                    lossy: config.lossy_file,
                },
            }
        },
        TracingMode::JaegerLive => SinkPlan {
            filter,
            topology: Topology::JaegerLive {
                probe_endpoint: probe_endpoint(config.jaeger_hostname.as_str()),
                agent_endpoint: agent_endpoint(config.jaeger_hostname.as_str()),
            },
        },
    }
}

/// Relies on `tracing_subscriber::EnvFilter::from_default_env` (reads the
/// conventional `RUST_LOG` environment variable, falling back to an empty
/// filter) and on the filter's `Display` rendering. The result depends on the
/// process environment, so nothing is promised of it.
#[verifier::external_body]
fn default_env_directive() -> String {
    tracing_subscriber::EnvFilter::from_default_env().to_string()
}

/// The filter-resolution decision, for any value the environment may have
/// produced: an explicit expression wins verbatim; otherwise the derived
/// directive is taken as it came.
pub fn resolve_filter(explicit: &Option<String>, derived: String) -> (r: String)
    ensures
        explicit matches Some(f) ==> r@ == f@,
        explicit is None ==> r@ == derived@,
{
    match explicit {
        Some(f) => f.clone(),
        None => derived,
    }
}

/// Return the filter directive selected by the provided config: the config's
/// own expression when present — regardless of environment state — and the
/// environment-derived directive otherwise.
pub fn env_filter(config: &TracingConfig) -> (r: String)
    ensures
        config.env_filter matches Some(f) ==> r@ == f@,
{
    let derived = default_env_directive();
    resolve_filter(&config.env_filter, derived)
}

/// The non-blocking buffered file writer of tracing_appender, carried through
/// to the installers as an opaque value.
#[verifier::external_type_specification]
#[verifier::external_body]
pub struct ExNonBlocking(tracing_appender::non_blocking::NonBlocking);

/// Relies on tracing_subscriber's `FmtSubscriber` builder (env filter, span
/// events at close only, ANSI setting, standard output) and on
/// `tracing::subscriber::set_global_default`, whose documentation promises an
/// `Err` exactly when a global default was already installed. Returns whether
/// installation was accepted.
#[verifier::external_body]
fn set_console_subscriber(filter: &String, ansi: bool) -> bool {
    let subscriber = tracing_subscriber::FmtSubscriber::builder()
        .with_env_filter(filter.clone())
        .with_span_events(tracing_subscriber::fmt::format::FmtSpan::CLOSE)
        .with_ansi(ansi)
        .finish();
    tracing::subscriber::set_global_default(subscriber).is_ok()
}

/// Relies on the same builder as `set_console_subscriber`, with the JSON event
/// format selected, and on `tracing::subscriber::set_global_default`.
#[verifier::external_body]
fn set_console_subscriber_json(filter: &String, ansi: bool) -> bool {
    let subscriber = tracing_subscriber::FmtSubscriber::builder()
        .with_env_filter(filter.clone())
        .with_span_events(tracing_subscriber::fmt::format::FmtSpan::CLOSE)
        .with_ansi(ansi)
        .json()
        .finish();
    tracing::subscriber::set_global_default(subscriber).is_ok()
}

/// Relies on tracing_subscriber's `FmtSubscriber` builder writing through the
/// non-blocking file writer, and on `tracing::subscriber::set_global_default`.
#[verifier::external_body]
fn set_file_subscriber(
    writer: tracing_appender::non_blocking::NonBlocking,
    filter: &String,
    ansi: bool,
) -> bool {
    let subscriber = tracing_subscriber::FmtSubscriber::builder()
        .with_env_filter(filter.clone())
        .with_span_events(tracing_subscriber::fmt::format::FmtSpan::CLOSE)
        .with_ansi(ansi)
        .with_writer(writer)
        .finish();
    tracing::subscriber::set_global_default(subscriber).is_ok()
}

/// Relies on the same builder as `set_file_subscriber`, with the JSON event
/// format selected, and on `tracing::subscriber::set_global_default`.
#[verifier::external_body]
fn set_file_subscriber_json(
    writer: tracing_appender::non_blocking::NonBlocking,
    filter: &String,
    ansi: bool,
) -> bool {
    let subscriber = tracing_subscriber::FmtSubscriber::builder()
        .with_env_filter(filter.clone())
        .with_span_events(tracing_subscriber::fmt::format::FmtSpan::CLOSE)
        .with_ansi(ansi)
        .with_writer(writer)
        .json()
        .finish();
    tracing::subscriber::set_global_default(subscriber).is_ok()
}

/// Relies on tracing_subscriber's registry composed of a stdout formatter
/// layer, a file formatter layer over the non-blocking writer, and one
/// `EnvFilter` layer gating both, and on
/// `tracing::subscriber::set_global_default`.
#[verifier::external_body]
fn set_combined_subscriber(
    writer: tracing_appender::non_blocking::NonBlocking,
    filter: &String,
    ansi_console: bool,
    ansi_file: bool,
) -> bool {
    let stdout_layer = tracing_subscriber::fmt::layer()
        .with_writer(std::io::stdout)
        .with_span_events(tracing_subscriber::fmt::format::FmtSpan::CLOSE)
        .with_ansi(ansi_console);
    let file_layer = tracing_subscriber::fmt::layer()
        .with_writer(writer)
        .with_span_events(tracing_subscriber::fmt::format::FmtSpan::CLOSE)
        .with_ansi(ansi_file);
    let subscriber = tracing_subscriber::registry()
        .with(stdout_layer)
        .with(file_layer)
        .with(tracing_subscriber::EnvFilter::new(filter));
    tracing::subscriber::set_global_default(subscriber).is_ok()
}

/// Relies on the same registry composition as `set_combined_subscriber`, with
/// the JSON event format selected on both formatter layers.
#[verifier::external_body]
fn set_combined_subscriber_json(
    writer: tracing_appender::non_blocking::NonBlocking,
    filter: &String,
    ansi_console: bool,
    ansi_file: bool,
) -> bool {
    let stdout_layer = tracing_subscriber::fmt::layer()
        .with_writer(std::io::stdout)
        .with_span_events(tracing_subscriber::fmt::format::FmtSpan::CLOSE)
        .with_ansi(ansi_console);
    let file_layer = tracing_subscriber::fmt::layer()
        .with_writer(writer)
        .with_span_events(tracing_subscriber::fmt::format::FmtSpan::CLOSE)
        .with_ansi(ansi_file);
    let subscriber = tracing_subscriber::registry()
        .with(stdout_layer.json())
        .with(file_layer.json())
        .with(tracing_subscriber::EnvFilter::new(filter));
    tracing::subscriber::set_global_default(subscriber).is_ok()
}

/// Install console-only logging: one formatter bound to standard output,
/// honoring the config's console ANSI and JSON settings, gated by the
/// resolved filter. Whether the global slot accepts the sink is decided by
/// the process state, so success is not promised; a refusal is reported
/// exactly as `AlreadyInitialized`.
pub fn configure_console_logging(config: TracingConfig) -> (r: Result<(), InitError>)
    ensures
        r matches Err(e) ==> e == InitError::AlreadyInitialized,
{
    let filter = env_filter(&config);
    let ok = if config.json {
        set_console_subscriber_json(&filter, config.ansi_console)
    } else {
        set_console_subscriber(&filter, config.ansi_console)
    };
    if ok {
        Ok(())
    } else {
        Err(InitError::AlreadyInitialized)
    }
}

/// Install file-only logging through the supplied non-blocking writer,
/// honoring the config's file ANSI and JSON settings, gated by the resolved
/// filter. The writer is built by the caller from the path this library
/// computes; the caller retains the writer's flush guard.
pub fn configure_file_logging(
    config: TracingConfig,
    writer: tracing_appender::non_blocking::NonBlocking,
) -> (r: Result<(), InitError>)
    ensures
        r matches Err(e) ==> e == InitError::AlreadyInitialized,
{
    let filter = env_filter(&config);
    let ok = if config.json {
        set_file_subscriber_json(writer, &filter, config.ansi_file)
    } else {
        set_file_subscriber(writer, &filter, config.ansi_file)
    };
    if ok {
        Ok(())
    } else {
        Err(InitError::AlreadyInitialized)
    }
}

/// Install the console+file fan-out: two independent formatter layers in one
/// registry, both gated by one shared filter decision — the directive is
/// resolved once here and handed to the composite once, never re-resolved per
/// layer. JSON formatting, when enabled, applies identically to both layers.
pub fn configure_combined_logging(
    config: TracingConfig,
    writer: tracing_appender::non_blocking::NonBlocking,
) -> (r: Result<(), InitError>)
    ensures
        r matches Err(e) ==> e == InitError::AlreadyInitialized,
{
    let filter = env_filter(&config);
    let ok = if config.json {
        set_combined_subscriber_json(writer, &filter, config.ansi_console, config.ansi_file)
    } else {
        set_combined_subscriber(writer, &filter, config.ansi_console, config.ansi_file)
    };
    if ok {
        Ok(())
    } else {
        Err(InitError::AlreadyInitialized)
    }
}

} // verus!
