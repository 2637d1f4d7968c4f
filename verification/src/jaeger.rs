//! The live trace-collector topology: endpoint construction for the
//! collector's probe and agent ports, and installation of the console
//! formatter plus span-export layer.

use vstd::prelude::*;
use vstd::string::StringExecFns;
use crate::tracing_setup::InitError;
use crate::tracing_setup::TracingConfig;
use crate::tracing_setup::env_filter;
use tracing_subscriber::layer::SubscriberExt;
use tracing_subscriber::util::SubscriberInitExt;

verus! {

/// The suffix naming the collector's web-UI port, probed for readiness.
pub open spec fn probe_port_suffix() -> Seq<char> {
    seq![':', '1', '6', '6', '8', '6']
}

/// The suffix naming the collector's agent ingestion port.
pub open spec fn agent_port_suffix() -> Seq<char> {
    seq![':', '6', '8', '3', '1']
}

/// The endpoint probed for collector readiness: `{hostname}:16686`. Only a
/// TCP connection attempt is made there; no data is sent.
pub fn probe_endpoint(hostname: &str) -> (r: String)
    ensures
        r@ == hostname@ + probe_port_suffix(),
{
    proof {
        reveal_strlit(":16686");
    }
    let mut s = hostname.to_owned();
    s.append(":16686");
    proof {
        assert(s@ =~= hostname@ + probe_port_suffix());
    }
    s
}

/// The endpoint span data is exported to: `{hostname}:6831`.
pub fn agent_endpoint(hostname: &str) -> (r: String)
    ensures
        r@ == hostname@ + agent_port_suffix(),
{
    proof {
        reveal_strlit(":6831");
    }
    let mut s = hostname.to_owned();
    s.append(":6831");
    proof {
        assert(s@ =~= hostname@ + agent_port_suffix());
    }
    s
}

/// Relies on opentelemetry_jaeger's agent pipeline (`new_agent_pipeline`,
/// `with_service_name`, `with_endpoint`, `install_simple`), on
/// tracing_opentelemetry's `layer().with_tracer`, and on tracing_subscriber's
/// registry with `try_init`: installs filter + console formatter + export
/// layer as the process-wide default. Returns false when the exporter could
/// not be built or the global slot refused the subscriber.
#[verifier::external_body]
fn set_jaeger_subscriber(filter: &String, endpoint: &String, service: &str) -> bool {
    let filter_layer = tracing_subscriber::EnvFilter::new(filter);
    let fmt_layer = tracing_subscriber::fmt::Layer::default();
    let registry = tracing_subscriber::registry().with(filter_layer).with(fmt_layer);
    let tracer = match opentelemetry_jaeger::new_agent_pipeline()
        .with_service_name(service)
        .with_endpoint(endpoint.as_str())
        .install_simple() {
        Ok(t) => t,
        Err(_) => {
            return false;
        },
    };
    let jaeger_layer = tracing_opentelemetry::layer().with_tracer(tracer);
    registry.with(jaeger_layer).try_init().is_ok()
}

/// Install the live trace-collector topology: a console formatter for local
/// visibility plus an exporter shipping span data to the collector's agent
/// port, both gated by the resolved filter and tagged with the fixed service
/// identifier. Success is decided by the exporter and the process-wide sink
/// slot, so it is not promised; every failure is fatal to the caller.
pub fn init_jaeger(config: TracingConfig) -> (r: Result<(), InitError>)
    ensures
        r matches Err(e) ==> e == InitError::TraceExporter,
{
    let filter = env_filter(&config);
    let endpoint = agent_endpoint(config.jaeger_hostname.as_str());
    if set_jaeger_subscriber(&filter, &endpoint, "sb-usb") {
        Ok(())
    } else {
        Err(InitError::TraceExporter)
    }
}

} // verus!
