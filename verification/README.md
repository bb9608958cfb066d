# rancher-helm-mcp

An [MCP](https://modelcontextprotocol.io) server that installs Helm charts on
Rancher-managed clusters. It asks Rancher for a kubeconfig of the target
cluster and runs `helm` inside a short-lived Kubernetes Job.

The rules of the server are a library verified with
[Verus](https://github.com/verus-lang/verus); the program around it does the
input and output.

## Layout

| Path | What it holds |
|---|---|
| `src/text.rs` | characters, trimming, joining, decimal numbers |
| `src/names.rs` | names of Jobs and Secrets |
| `src/string_map.rs`, `src/manifest.rs` | the objects that are created |
| `src/k8s.rs` | the plan of a helm run, and the order in which it is carried out |
| `src/job_output.rs` | phases, logs, waiting |
| `src/rancher.rs` | requests to Rancher, and what the replies mean |
| `src/clusters.rs` | finding and listing clusters |
| `src/helm.rs` | inputs of the tools, and the helm arguments they stand for |
| `src/server.rs` | the tools, step by step |
| `src/config.rs` | settings from the environment |
| `app/` | HTTP, the Kubernetes API, MCP transports, `main` |
| `tests/` | tests on concrete values |

Every public function states its result in `ensures`. Properties that span
several functions are public proof functions whose names begin with `law_`.

Apart from the random UUIDs that it draws from the system for the names of
Jobs, the library performs no input or output. A tool call is a `ToolStep`: either a
request (`Ask`) or the answer (`Done`). `app/` performs the request and passes
the reply to `HelmMcpServer::resume`. Creating the objects of a run
(`SpawnStep`), looking at a Job (`OutputStep`) and waiting for it (`WaitCall`)
work in the same way.

## Trusted

These contracts are believed, not proved: `String::push` (`src/text.rs`),
`uuid::Uuid::new_v4` (`src/names.rs`), the text of an HTTP status
(`src/rancher.rs`) and `serde_json::to_string_pretty` (`src/helm.rs`).

## Tools

| Tool | What it does |
|---|---|
| `list_clusters` | lists the clusters visible to the API token |
| `install_helm_chart` | installs or upgrades a chart; answers with the Job's name at once |
| `get_job_status` | gives the phase of a Job and, once it has finished, its logs |
| `list_helm_releases` | runs `helm list` as a Job, waits up to 60 s, answers with its JSON |

## Environment

| Variable | Required | Default |
|---|---|---|
| `RANCHER_URL` | yes | |
| `RANCHER_TOKEN` | yes | |
| `RANCHER_TLS_VERIFY` | no | on; `false` and `0` turn it off |
| `PORT` | no | with a port: streamable HTTP; otherwise stdio |
| `JOB_NAMESPACE` | no | the service account's namespace, then `default` |
| `HELM_IMAGE` | no | `alpine/helm:3` |
| `RUST_LOG` | no | `info` |
