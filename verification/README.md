# hubify

A hub of applications and commands on Kubernetes.

- `src/` is the verified library:
  - `common`: the resource models, the custom resource specifications and how listed
    resources become models; the fixed listing used without a cluster.
  - `cli`: the objects that install the hub (service account, access rules, resource
    definitions, services, deployments) and the joining of their YAML documents.
  - `controller`: configuration defaults, log levels, route tables, error answers and the
    tracing settings (protocol and endpoint of the span exporter, log directives).
  - `operator`: the operator's command line, configuration and API.
  - `routes`: the plain server's route table.
  - `xtask`: the development tasks as step functions: creating a kind cluster with its
    registry, and watching the project under Tilt.
  - `text`: decimal rendering, substring search and line search in command output.
  - `foreign`: the outside types and calls that the library holds or makes.
- `app/` runs the programs: argument parsing, the HTTP servers, the Kubernetes client,
  YAML output, tracing installation and the running of commands.
- `tests/` exercises the library on concrete values.
