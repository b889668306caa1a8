use hubify::common::add;
use hubify::common::db;
use hubify::common::k8s::crd::{ApplicationSpec, ApplicationStatus, CommandSpec, Repository};
use hubify::common::k8s::methods;
use hubify::common::models;

#[test]
fn it_works() {
    let result = add(2, 2);
    assert_eq!(result, 4);
}

#[test]
fn add_reaches_the_largest_size() {
    assert_eq!(add(usize::MAX - 1, 1), usize::MAX);
    assert_eq!(add(0, 0), 0);
}

#[test]
fn fixed_application_listing_is_parsed_local_address() {
    let apps = db::get_applications().unwrap();
    assert_eq!(apps.len(), 1);
    assert_eq!(apps[0].name, "");
    assert_eq!(apps[0].url.as_str(), "http://localhost:8080/");
    assert_eq!(apps[0].url.port(), Some(8080));
    assert!(apps[0].version.is_none());
    assert!(apps[0].repository.is_none());
    assert!(apps[0].openapi_endpoint.is_none());
}

#[test]
fn fixed_command_listing() {
    let cmds = db::get_commnads().unwrap();
    assert_eq!(cmds.len(), 1);
    assert_eq!(cmds[0].name, "");
    assert_eq!(cmds[0].version.as_deref(), Some(""));
    assert!(cmds[0].description.is_none());
}

#[test]
fn common_error_messages() {
    assert_eq!(db::CommonError::ClientError("x".to_string()).message(), "Base error");
    let e = methods::CommonError::ClientError(kube::Error::LinesCodecMaxLineLengthExceeded);
    assert_eq!(e.message(), "k8s error");
}

fn spec(name: &str, with_repository: bool) -> ApplicationSpec {
    ApplicationSpec {
        name: name.to_string(),
        version: Some("1.0".to_string()),
        description: None,
        icon: Some("icon.png".to_string()),
        url: url::Url::parse("https://example.org/app").unwrap(),
        categories: Some(vec!["tools".to_string()]),
        openapi_endpoint: None,
        repository: if with_repository {
            Some(Repository {
                name: "repo".to_string(),
                url: url::Url::parse("https://example.org/repo.git").unwrap(),
                access_token: Some("SECRET-REDACTED".to_string()),
                docs_url: None,
                docs_dir: Some("docs".to_string()),
            })
        } else {
            None
        },
    }
}

#[test]
fn application_resources_become_models_in_order() {
    let apps = methods::get_applications(vec![spec("first", true), spec("second", false)]);
    assert_eq!(apps.len(), 2);
    assert_eq!(apps[0].name, "first");
    assert_eq!(apps[1].name, "second");
    assert_eq!(apps[0].version.as_deref(), Some("1.0"));
    assert_eq!(apps[0].icon.as_deref(), Some("icon.png"));
    assert_eq!(apps[0].url.as_str(), "https://example.org/app");
    assert_eq!(apps[0].categories, Some(vec!["tools".to_string()]));
    let repo = apps[0].repository.as_ref().unwrap();
    assert_eq!(repo.name, "repo");
    assert_eq!(repo.url.as_str(), "https://example.org/repo.git");
    assert_eq!(repo.docs_dir.as_deref(), Some("docs"));
    assert!(apps[1].repository.is_none());
}

#[test]
fn empty_listing_gives_no_models() {
    assert!(methods::get_applications(vec![]).is_empty());
    assert!(methods::get_commnads(vec![]).is_empty());
}

#[test]
fn command_resources_become_models() {
    let cmds = methods::get_commnads(vec![
        CommandSpec { name: "deploy".to_string(), version: None, description: Some("d".to_string()) },
    ]);
    assert_eq!(cmds.len(), 1);
    assert_eq!(cmds[0].name, "deploy");
    assert!(cmds[0].version.is_none());
    assert_eq!(cmds[0].description.as_deref(), Some("d"));
    let model: models::Command =
        CommandSpec { name: "n".to_string(), version: Some("v".to_string()), description: None }.into();
    assert_eq!(model.version.as_deref(), Some("v"));
}

#[test]
fn default_status_is_empty() {
    assert_eq!(ApplicationStatus::default().status, "");
    assert_eq!(hubify::common::crd::ApplicationStatus::default().status, "");
    assert_eq!(hubify::operator::crd::ApplicationStatus::default().status, "");
}
