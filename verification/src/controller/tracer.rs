//! The settings of the controller's tracing: which protocol and endpoint the spans are
//! exported to, and which log directives filter the output.
use crate::controller::config::Config;
use crate::controller::logger::{level_name, LogLevel};
use crate::text::{contains_seq, str_contains};
use vstd::prelude::*;

verus! {

/// The protocol of the exported spans: the one given, or else gRPC where the endpoint
/// names port 4317 and HTTP with protobuf bodies otherwise.
pub open spec fn inferred_protocol(
    maybe_protocol: Option<Seq<char>>,
    maybe_endpoint: Option<Seq<char>>,
) -> Seq<char> {
    match maybe_protocol {
        Some(p) => p,
        None => if maybe_endpoint matches Some(e) && contains_seq(e, ":4317"@) {
            "grpc"@
        } else {
            "http/protobuf"@
        },
    }
}

/// The endpoint of the exported spans: the one given, or else the local collector on
/// the port of the protocol (4318 for HTTP with protobuf bodies, 4317 otherwise).
pub open spec fn inferred_endpoint(protocol: Seq<char>, maybe_endpoint: Option<Seq<char>>) -> Seq<
    char,
> {
    match maybe_endpoint {
        Some(e) => e,
        None => if protocol == "http/protobuf"@ {
            "http://localhost:4318"@
        } else {
            "http://localhost:4317"@
        },
    }
}

/// The protocol and endpoint that spans are exported with.
pub fn infer_protocol_and_endpoint(given: (Option<String>, Option<String>)) -> (r: (String, String))
    ensures
        r.0@ == inferred_protocol(given.0.deep_view(), given.1.deep_view()),
        r.1@ == inferred_endpoint(r.0@, given.1.deep_view()),
{
    let (maybe_protocol, maybe_endpoint) = given;
    let protocol = match maybe_protocol {
        Some(p) => p,
        None => {
            let on_grpc_port = match &maybe_endpoint {
                Some(e) => str_contains(e.as_str(), ":4317"),
                None => false,
            };
            if on_grpc_port {
                String::from_str("grpc")
            } else {
                String::from_str("http/protobuf")
            }
        },
    };
    let http = String::from_str("http/protobuf");
    let endpoint = match maybe_endpoint {
        Some(e) => e,
        None => if protocol == http {
            String::from_str("http://localhost:4318")
        } else {
            String::from_str("http://localhost:4317")
        },
    };
    (protocol, endpoint)
}

/// Feeding the inferred protocol and endpoint back in gives them again.
pub proof fn lemma_inference_is_stable(
    maybe_protocol: Option<Seq<char>>,
    maybe_endpoint: Option<Seq<char>>,
)
    ensures
        ({
            let p = inferred_protocol(maybe_protocol, maybe_endpoint);
            let e = inferred_endpoint(p, maybe_endpoint);
            inferred_protocol(Some(p), Some(e)) == p && inferred_endpoint(p, Some(e)) == e
        }),
{
}

/// Without a protocol or an endpoint, spans go to the local collector over HTTP with
/// protobuf bodies.
pub proof fn lemma_default_export()
    ensures
        inferred_protocol(None, None) == "http/protobuf"@,
        inferred_endpoint(inferred_protocol(None, None), None) == "http://localhost:4318"@,
{
}

/// The endpoint names port 4317: ":4317" occurs in it.
pub open spec fn names_grpc_port(endpoint: Seq<char>) -> bool {
    exists|i: int| 0 <= i && i + 5 <= endpoint.len() && #[trigger] endpoint.subrange(i, i + 5) == ":4317"@
}

/// Given an endpoint and no protocol, spans go over gRPC exactly when the endpoint
/// names port 4317, and over HTTP with protobuf bodies otherwise (whatever else it names,
/// port 4318 or none); the endpoint itself is kept.
pub proof fn lemma_protocol_follows_grpc_port(endpoint: Seq<char>)
    ensures
        names_grpc_port(endpoint) ==> inferred_protocol(None, Some(endpoint)) == "grpc"@,
        !names_grpc_port(endpoint) ==> inferred_protocol(None, Some(endpoint)) == "http/protobuf"@,
        inferred_endpoint(inferred_protocol(None, Some(endpoint)), Some(endpoint)) == endpoint,
{
    reveal_strlit(":4317");
    if names_grpc_port(endpoint) {
        let i = choose|i: int| 0 <= i && i + 5 <= endpoint.len() && #[trigger] endpoint.subrange(i, i + 5) == ":4317"@;
        assert(endpoint.subrange(i, i + ":4317"@.len()) == ":4317"@);
        assert(contains_seq(endpoint, ":4317"@));
    } else {
        assert forall|i: int| 0 <= i <= endpoint.len() - ":4317"@.len() implies
            #[trigger] endpoint.subrange(i, i + ":4317"@.len()) != ":4317"@ by {
            assert(endpoint.subrange(i, i + 5) != ":4317"@);
        }
        assert(!contains_seq(endpoint, ":4317"@));
    }
}

/// The exporters of spans.
#[derive(Debug, Clone, Copy, PartialEq, Eq, Structural)]
pub enum ExporterKind {
    /// HTTP with protobuf bodies.
    Http,
    /// gRPC.
    Tonic,
}

/// The exporter for a protocol: HTTP for "http/protobuf", gRPC for any other.
pub open spec fn exporter_for(protocol: Seq<char>) -> ExporterKind {
    if protocol == "http/protobuf"@ {
        ExporterKind::Http
    } else {
        ExporterKind::Tonic
    }
}

/// The collector's address picks the exporter: gRPC exactly when the address names port
/// 4317, HTTP with protobuf bodies otherwise.
pub proof fn lemma_exporter_follows_grpc_port(address: Seq<char>)
    ensures
        exporter_for(inferred_protocol(None, Some(address))) == (if names_grpc_port(address) {
            ExporterKind::Tonic
        } else {
            ExporterKind::Http
        }),
{
    lemma_protocol_follows_grpc_port(address);
    reveal_strlit("grpc");
    reveal_strlit("http/protobuf");
    assert("grpc"@ != "http/protobuf"@) by {
        assert("grpc"@.len() != "http/protobuf"@.len());
    }
}

/// The exporter and endpoint of the configured collector: the protocol is inferred from
/// the configured address, which is the endpoint.
pub fn init_tracer(config: &Config) -> (r: (ExporterKind, String))
    requires
        config.otlp_url is Some,
    ensures
        r.1@ == config.otlp_url->0@,
        r.0 == exporter_for(inferred_protocol(None, Some(config.otlp_url->0@))),
{
    let url = match &config.otlp_url {
        Some(u) => u.clone(),
        None => String::new(),
    };
    let (protocol, endpoint) = infer_protocol_and_endpoint((None, Some(url)));
    let http = String::from_str("http/protobuf");
    let kind = if protocol == http {
        ExporterKind::Http
    } else {
        ExporterKind::Tonic
    };
    (kind, endpoint)
}

/// The log directives of the configured level: the level for everything, with the
/// tracing middleware at info and the telemetry setup at debug.
pub fn build_loglevel_filter_layer(config: &Config) -> (directives: String)
    ensures
        directives@ == level_name(config.log_level) + ",axum_tracing_opentelemetry=info,otel=debug"@,
{
    let level = String::from_str(config.log_level.as_str());
    level.concat(",axum_tracing_opentelemetry=info,otel=debug")
}

/// How the controller's logs and traces are set up.
#[derive(Debug)]
pub enum TracingSetup {
    /// Spans are exported to a collector, and the log output is filtered by directives.
    Exported { exporter: ExporterKind, endpoint: String, directives: String },
    /// Logs are written to the console up to a level.
    Console { max_level: LogLevel },
}

/// The setup of logs and traces: spans are exported where a collector is configured,
/// to its address, and the output is filtered by the level's directives; otherwise logs
/// go to the console up to the configured level.
pub fn setup_tracing(config: &Config) -> (setup: TracingSetup)
    ensures
        match setup {
            TracingSetup::Exported { exporter, endpoint, directives } => {
                &&& config.otlp_url matches Some(url)
                &&& endpoint@ == url@
                &&& exporter == exporter_for(inferred_protocol(None, Some(url@)))
                &&& directives@ == level_name(config.log_level)
                    + ",axum_tracing_opentelemetry=info,otel=debug"@
            },
            TracingSetup::Console { max_level } => config.otlp_url is None && max_level
                == config.log_level,
        },
{
    if config.otlp_url.is_some() {
        let directives = build_loglevel_filter_layer(config);
        let (exporter, endpoint) = init_tracer(config);
        TracingSetup::Exported { exporter, endpoint, directives }
    } else {
        TracingSetup::Console { max_level: config.log_level }
    }
}

} // verus!
