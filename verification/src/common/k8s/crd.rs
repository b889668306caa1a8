//! The custom resource specifications of applications and commands, and how each
//! becomes the model that the controller serves.
use crate::common::models;
use vstd::prelude::*;

verus! {

/// Specification of an `Application` custom resource.
#[derive(Debug, Clone)]
pub struct ApplicationSpec {
    pub name: String,
    pub version: Option<String>,
    pub description: Option<String>,
    pub icon: Option<String>,
    pub url: url::Url,
    pub categories: Option<Vec<String>>,
    pub openapi_endpoint: Option<url::Url>,
    pub repository: Option<Repository>,
}

/// Specification of a `Command` custom resource.
#[derive(Debug, Clone)]
pub struct CommandSpec {
    pub name: String,
    pub version: Option<String>,
    pub description: Option<String>,
}

/// A source repository named by an application resource.
#[derive(Debug, Clone)]
pub struct Repository {
    pub name: String,
    pub url: url::Url,
    pub access_token: Option<String>,
    pub docs_url: Option<url::Url>,
    pub docs_dir: Option<String>,
}

/// Status of an `Application` custom resource.
#[derive(Debug, Clone)]
pub struct ApplicationStatus {
    pub status: String,
}

impl Default for ApplicationStatus {
    fn default() -> (s: Self)
        ensures
            s.status@ == Seq::<char>::empty(),
    {
        ApplicationStatus { status: String::new() }
    }
}

/// The model of a repository: every field carried over as it is.
pub open spec fn repository_model(r: Repository) -> models::Repository {
    models::Repository {
        name: r.name,
        url: r.url,
        access_token: r.access_token,
        docs_url: r.docs_url,
        docs_dir: r.docs_dir,
    }
}

/// The model of an application resource: every field carried over, its repository
/// turned into the repository model.
pub open spec fn application_model(a: ApplicationSpec) -> models::Application {
    models::Application {
        name: a.name,
        version: a.version,
        description: a.description,
        icon: a.icon,
        url: a.url,
        categories: a.categories,
        openapi_endpoint: a.openapi_endpoint,
        repository: match a.repository {
            Some(r) => Some(repository_model(r)),
            None => None,
        },
    }
}

/// The model of a command resource: every field carried over.
pub open spec fn command_model(c: CommandSpec) -> models::Command {
    models::Command { name: c.name, version: c.version, description: c.description }
}

/// The model of an application resource keeps every field of its specification: the
/// same name, version, description, icon, address, categories and API endpoint, and the
/// same repository, field by field, when it has one.
pub open spec fn keeps_application_fields(m: models::Application, a: ApplicationSpec) -> bool {
    &&& m.name == a.name
    &&& m.version == a.version
    &&& m.description == a.description
    &&& m.icon == a.icon
    &&& m.url == a.url
    &&& m.categories == a.categories
    &&& m.openapi_endpoint == a.openapi_endpoint
    &&& (m.repository is Some <==> a.repository is Some)
    &&& a.repository matches Some(r) ==> {
        let mr = m.repository->0;
        &&& mr.name == r.name
        &&& mr.url == r.url
        &&& mr.access_token == r.access_token
        &&& mr.docs_url == r.docs_url
        &&& mr.docs_dir == r.docs_dir
    }
}

/// The model of a command resource keeps every field of its specification.
pub open spec fn keeps_command_fields(m: models::Command, c: CommandSpec) -> bool {
    &&& m.name == c.name
    &&& m.version == c.version
    &&& m.description == c.description
}

/// Turning an application resource into its model loses nothing: every field is
/// carried over as it is.
pub proof fn lemma_application_model_keeps_fields(a: ApplicationSpec)
    ensures
        keeps_application_fields(application_model(a), a),
{
}

/// Turning a command resource into its model loses nothing.
pub proof fn lemma_command_model_keeps_fields(c: CommandSpec)
    ensures
        keeps_command_fields(command_model(c), c),
{
}

impl From<Repository> for models::Repository {
    fn from(r: Repository) -> (m: models::Repository) {
        models::Repository {
            name: r.name,
            url: r.url,
            access_token: r.access_token,
            docs_url: r.docs_url,
            docs_dir: r.docs_dir,
        }
    }
}

impl vstd::std_specs::convert::FromSpecImpl<Repository> for models::Repository {
    open spec fn obeys_from_spec() -> bool {
        true
    }

    open spec fn from_spec(r: Repository) -> models::Repository {
        repository_model(r)
    }
}

impl From<ApplicationSpec> for models::Application {
    fn from(a: ApplicationSpec) -> (m: models::Application) {
        let repository = match a.repository {
            Some(r) => Some(models::Repository::from(r)),
            None => None,
        };
        models::Application {
            name: a.name,
            version: a.version,
            description: a.description,
            icon: a.icon,
            url: a.url,
            categories: a.categories,
            openapi_endpoint: a.openapi_endpoint,
            repository,
        }
    }
}

impl vstd::std_specs::convert::FromSpecImpl<ApplicationSpec> for models::Application {
    open spec fn obeys_from_spec() -> bool {
        true
    }

    open spec fn from_spec(a: ApplicationSpec) -> models::Application {
        application_model(a)
    }
}

impl From<CommandSpec> for models::Command {
    fn from(c: CommandSpec) -> (m: models::Command) {
        models::Command { name: c.name, version: c.version, description: c.description }
    }
}

impl vstd::std_specs::convert::FromSpecImpl<CommandSpec> for models::Command {
    open spec fn obeys_from_spec() -> bool {
        true
    }

    open spec fn from_spec(c: CommandSpec) -> models::Command {
        command_model(c)
    }
}

} // verus!
