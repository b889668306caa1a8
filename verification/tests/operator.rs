use hubify::controller::logger::LogLevel;
use hubify::controller::routes::Handler;
use hubify::operator::cli::{CliError, StartCommandArgs};
use hubify::operator::config::Config;
use hubify::operator::routes::k8s;

#[test]
fn configuration_defaults_of_the_operator() {
    let c = Config::new(None, None, None, None);
    assert_eq!(c._num_threads, 8);
    assert_eq!(c.log_level, LogLevel::Info);
    assert_eq!(c.address, "0.0.0.0:3000");
    assert!(c.otlp_url.is_none());
    let c = Config::new(Some(2), Some(LogLevel::Debug), Some("127.0.0.1:80".to_string()), Some("u".to_string()));
    assert_eq!(c._num_threads, 2);
    assert_eq!(c.log_level, LogLevel::Debug);
    assert_eq!(c.address, "127.0.0.1:80");
    assert_eq!(c.otlp_url.as_deref(), Some("u"));
}

#[test]
fn start_arguments_become_the_configuration() {
    let args = StartCommandArgs {
        num_threads: 3,
        log_level: LogLevel::Error,
        address: "1.2.3.4:5".to_string(),
        otlp_url: None,
    };
    let c: Config = args.into();
    assert_eq!(c._num_threads, 3);
    assert_eq!(c.log_level, LogLevel::Error);
    assert_eq!(c.address, "1.2.3.4:5");
    assert!(c.otlp_url.is_none());
}

#[test]
fn cli_error_messages() {
    assert_eq!(CliError::ThreadLimit(12).message(), "Limit of threads exeeded: '12', limit is 8");
    assert_eq!(CliError::ThreadLimit(0).message(), "Limit of threads exeeded: '0', limit is 8");
    assert_eq!(
        CliError::InvaidAddress("nowhere".to_string()).message(),
        "Invalid type of address 'nowhere'"
    );
}

#[test]
fn operator_api() {
    assert_eq!(k8s::get_services().unwrap(), "Hello k8s");
    let routes = k8s::router();
    assert_eq!(routes.len(), 1);
    assert_eq!(routes[0].path, "/");
    assert_eq!(routes[0].handler, Handler::K8sServices);
    let e = k8s::K8SERROR::ClientError(kube::Error::LinesCodecMaxLineLengthExceeded);
    assert_eq!(e.message(), "k8s error");
    assert_eq!(e.status_code(), 500);
}

#[test]
fn server_routes() {
    let table = hubify::routes::configure_routes();
    assert_eq!(table.routes.len(), 2);
    assert_eq!(table.routes[1].path, "/health");
    assert_eq!(table.nests[0].prefix, "/k8s");
    assert_eq!(table.nests[0].routes[0].handler, Handler::ServiceNames);
    assert_eq!(hubify::routes::k8s::get_services(), vec!["k8s".to_string()]);
}
