use hubify::controller::config::{default_address, default_log_level, default_treads, Config};
use hubify::controller::logger::LogLevel;
use hubify::controller::routes::{base, configure_routes, health_check, k8s, root, ApiBackend, Handler, Route};
use hubify::controller::tracer::{
    build_loglevel_filter_layer, infer_protocol_and_endpoint, init_tracer, setup_tracing, ExporterKind,
    TracingSetup,
};
use hubify::common::{db, k8s::methods};

fn config(otlp: Option<&str>, level: LogLevel) -> Config {
    Config {
        num_threads: 4,
        log_level: level,
        address: "0.0.0.0:3000".to_string(),
        otlp_url: otlp.map(|s| s.to_string()),
    }
}

fn paths(routes: &[Route]) -> Vec<(String, Handler)> {
    routes.iter().map(|r| (r.path.clone(), r.handler)).collect()
}

#[test]
fn configuration_defaults() {
    assert_eq!(default_treads(), 4);
    assert_eq!(default_log_level(), LogLevel::Info);
    assert_eq!(default_address(), "0.0.0.0:3000");
    assert_eq!(LogLevel::default(), LogLevel::Info);
    assert_eq!(LogLevel::Warn.as_str(), "warn");
    assert_eq!(LogLevel::Trace.as_str(), "trace");
}

#[test]
fn protocol_is_inferred_from_the_endpoint_port() {
    let (p, e) = infer_protocol_and_endpoint((None, Some("http://collector:4317".to_string())));
    assert_eq!(p, "grpc");
    assert_eq!(e, "http://collector:4317");
    let (p, e) = infer_protocol_and_endpoint((None, Some("http://collector:4318".to_string())));
    assert_eq!(p, "http/protobuf");
    assert_eq!(e, "http://collector:4318");
}

#[test]
fn endpoint_defaults_follow_the_protocol() {
    let (p, e) = infer_protocol_and_endpoint((None, None));
    assert_eq!(p, "http/protobuf");
    assert_eq!(e, "http://localhost:4318");
    let (p, e) = infer_protocol_and_endpoint((Some("grpc".to_string()), None));
    assert_eq!(p, "grpc");
    assert_eq!(e, "http://localhost:4317");
    let (p, e) = infer_protocol_and_endpoint((Some("http/json".to_string()), None));
    assert_eq!(p, "http/json");
    assert_eq!(e, "http://localhost:4317");
}

#[test]
fn inference_is_stable() {
    let first = infer_protocol_and_endpoint((None, Some("http://c:4317".to_string())));
    let again = infer_protocol_and_endpoint((Some(first.0.clone()), Some(first.1.clone())));
    assert_eq!(first, again);
}

#[test]
fn exporter_of_the_configured_collector() {
    let (kind, endpoint) = init_tracer(&config(Some("http://otel:4317"), LogLevel::Info));
    assert_eq!(kind, ExporterKind::Tonic);
    assert_eq!(endpoint, "http://otel:4317");
    let (kind, endpoint) = init_tracer(&config(Some("http://otel:4318/v1/traces"), LogLevel::Info));
    assert_eq!(kind, ExporterKind::Http);
    assert_eq!(endpoint, "http://otel:4318/v1/traces");
}

#[test]
fn filter_directives() {
    assert_eq!(
        build_loglevel_filter_layer(&config(None, LogLevel::Debug)),
        "debug,axum_tracing_opentelemetry=info,otel=debug"
    );
}

#[test]
fn tracing_setup_follows_the_collector() {
    match setup_tracing(&config(None, LogLevel::Warn)) {
        TracingSetup::Console { max_level } => assert_eq!(max_level, LogLevel::Warn),
        other => panic!("unexpected {:?}", other),
    }
    match setup_tracing(&config(Some("http://otel:4317"), LogLevel::Error)) {
        TracingSetup::Exported { exporter, endpoint, directives } => {
            assert_eq!(exporter, ExporterKind::Tonic);
            assert_eq!(endpoint, "http://otel:4317");
            assert_eq!(directives, "error,axum_tracing_opentelemetry=info,otel=debug");
        }
        other => panic!("unexpected {:?}", other),
    }
}

#[test]
fn routes_of_the_controller() {
    assert_eq!(root(), "Hello, World!");
    assert_eq!(health_check(), "OK");
    let table = configure_routes(ApiBackend::Kubernetes);
    assert_eq!(
        paths(&table.routes),
        vec![("/".to_string(), Handler::Root), ("/health".to_string(), Handler::HealthCheck)]
    );
    assert_eq!(table.nests.len(), 1);
    assert_eq!(table.nests[0].prefix, "/api");
    assert_eq!(
        paths(&table.nests[0].routes),
        vec![("/".to_string(), Handler::K8sServices), ("/commands".to_string(), Handler::K8sCommands)]
    );
    let table = configure_routes(ApiBackend::Database);
    assert_eq!(
        paths(&table.nests[0].routes),
        vec![("/services".to_string(), Handler::BaseServices), ("/commands".to_string(), Handler::BaseCommands)]
    );
    assert_eq!(paths(&base::router()).len(), 2);
    assert_eq!(paths(&k8s::router()).len(), 2);
}

#[test]
fn base_listing_answers() {
    let apps = base::get_services().unwrap();
    assert_eq!(apps.len(), 1);
    assert_eq!(apps[0].url.as_str(), "http://localhost:8080/");
    let cmds = base::get_commands().unwrap();
    assert_eq!(cmds.len(), 1);
}

#[test]
fn errors_of_the_listing_api() {
    let e = base::BaseError::from(db::CommonError::ClientError("x".to_string()));
    assert_eq!(e.message(), "Common error:");
    assert_eq!(e.status_code(), 500);
    let e = k8s::K8SERROR::ClientError(kube::Error::LinesCodecMaxLineLengthExceeded);
    assert_eq!(e.message(), "k8s error");
    assert_eq!(e.status_code(), 500);
    let e = k8s::K8SERROR::CommonError(methods::CommonError::ClientError(
        kube::Error::LinesCodecMaxLineLengthExceeded,
    ));
    assert_eq!(e.message(), "Common error: k8s error");
    assert_eq!(e.status_code(), 400);
}
