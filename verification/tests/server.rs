use rancher_helm_mcp::clusters::{check_cluster_id, format_cluster, look_up_cluster};
use rancher_helm_mcp::helm::{
    install_request, values_json, GetJobStatusInput, InstallChartInput, ListClustersInput,
    ListReleasesInput,
};
use rancher_helm_mcp::job_output::JobOutput;
use rancher_helm_mcp::k8s::{HelmJobRequest, K8sJobRunner};
use rancher_helm_mcp::rancher::{Cluster, RancherClient};
use rancher_helm_mcp::server::{
    releases_of, HelmMcpServer, ToolCall, ToolError, ToolReply, ToolRequest, ToolStep,
};

const JOB: &str = "helm-install-nginx-abc12345";

/// Answers the requests of a tool and keeps a record of them.
struct Stub {
    clusters: Vec<Cluster>,
    get_logs: Option<String>,
    wait_logs: Option<String>,
    asked_for_clusters: usize,
    asked_for_kubeconfig: Vec<String>,
    spawned: Vec<HelmJobRequest>,
    waited: Vec<(String, u128)>,
}

fn stub(clusters: Vec<Cluster>) -> Stub {
    Stub {
        clusters,
        get_logs: None,
        wait_logs: None,
        asked_for_clusters: 0,
        asked_for_kubeconfig: vec![],
        spawned: vec![],
        waited: vec![],
    }
}

fn succeeded(logs: Option<String>) -> ToolReply {
    ToolReply::Output(Ok(JobOutput { phase: "Succeeded", succeeded: true, logs }))
}

impl Stub {
    fn reply(&mut self, call: &ToolCall) -> ToolReply {
        match &call.request {
            ToolRequest::ListClusters => {
                self.asked_for_clusters += 1;
                ToolReply::Clusters(Ok(self.clusters.clone()))
            }
            ToolRequest::GenerateKubeconfig { cluster_id } => {
                self.asked_for_kubeconfig.push(cluster_id.clone());
                ToolReply::Kubeconfig(Ok("stub-kubeconfig".to_string()))
            }
            ToolRequest::SpawnHelmJob(run) => {
                self.spawned.push(HelmJobRequest {
                    job_label: run.job_label.clone(),
                    release_name: run.release_name.clone(),
                    helm_args: run.helm_args.clone(),
                    kubeconfig: run.kubeconfig.clone(),
                    values_json: run.values_json.clone(),
                });
                ToolReply::Spawned(Ok(JOB.to_string()))
            }
            ToolRequest::GetJobOutput { .. } => succeeded(self.get_logs.clone()),
            ToolRequest::WaitForJob { job_name, timeout_nanos } => {
                self.waited.push((job_name.clone(), *timeout_nanos));
                succeeded(self.wait_logs.clone())
            }
        }
    }

    fn drive(&mut self, step: ToolStep) -> Result<String, ToolError> {
        let mut step = step;
        loop {
            match step {
                ToolStep::Done(result) => return result,
                ToolStep::Ask(call) => {
                    let reply = self.reply(&call);
                    step = server().resume(call, reply);
                }
            }
        }
    }

    fn resolve(&mut self, cluster: &str) -> Result<String, ToolError> {
        let mut input = install_input("nginx", "nginx/nginx");
        input.cluster = cluster.to_string();
        self.drive(server().install_helm_chart(input))?;
        Ok(self.asked_for_kubeconfig[0].clone())
    }
}

fn server() -> HelmMcpServer {
    HelmMcpServer::new(
        RancherClient::new("https://rancher".to_string(), "t".to_string(), true),
        K8sJobRunner::new("test-ns".to_string(), "alpine/helm:3".to_string()),
    )
}

fn cluster(id: &str, name: &str) -> Cluster {
    Cluster {
        id: id.to_string(),
        name: name.to_string(),
        description: None,
        state: Some("active".to_string()),
    }
}

fn install_input(release: &str, chart: &str) -> InstallChartInput {
    InstallChartInput {
        cluster: "local".to_string(),
        namespace: "default".to_string(),
        release_name: release.to_string(),
        chart: chart.to_string(),
        version: None,
        repo: None,
        values: None,
    }
}

fn releases_input(cluster: &str, namespace: Option<&str>) -> ListReleasesInput {
    ListReleasesInput {
        cluster: cluster.to_string(),
        namespace: namespace.map(String::from),
    }
}

fn replicas() -> serde_json::Value {
    serde_json::from_str("{\"replicas\":3}").unwrap()
}

fn waiting(step: ToolStep) -> ToolCall {
    match step {
        ToolStep::Ask(call) => call,
        ToolStep::Done(_) => panic!("the tool should ask for something"),
    }
}

fn message(step: ToolStep) -> String {
    match step {
        ToolStep::Done(Err(error)) => error.message,
        _ => panic!("the tool should have failed"),
    }
}

// ---- Resolving clusters ----------------------------------------------------

#[test]
fn resolve_local_passes_through() {
    let mut stub = stub(vec![]);
    assert_eq!(stub.resolve("local").unwrap(), "local");
    assert_eq!(stub.asked_for_clusters, 0);
}

#[test]
fn resolve_cluster_id_prefix_passes_through() {
    let mut stub = stub(vec![]);
    assert_eq!(stub.resolve("c-m-abcd1234").unwrap(), "c-m-abcd1234");
    assert_eq!(stub.asked_for_clusters, 0);
}

#[test]
fn resolve_name_looks_up_id() {
    let mut stub = stub(vec![cluster("c-m-abc", "dev")]);
    assert_eq!(stub.resolve("dev").unwrap(), "c-m-abc");
    assert_eq!(stub.asked_for_clusters, 1);
}

#[test]
fn resolve_name_is_case_insensitive() {
    let mut stub = stub(vec![cluster("c-m-abc", "Dev")]);
    assert_eq!(stub.resolve("DEV").unwrap(), "c-m-abc");
}

#[test]
fn resolve_unknown_cluster_returns_error() {
    let mut stub = stub(vec![]);
    let err = stub.resolve("unknown").unwrap_err();
    assert!(err.message.contains("not found"), "error was: {}", err.message);
    assert_eq!(
        err.message,
        "cluster 'unknown' not found; use list_clusters to see available clusters"
    );
}

#[test]
fn resolve_takes_the_first_of_equal_names() {
    let found = vec![cluster("c-1", "prod"), cluster("c-2", "Dev"), cluster("c-3", "dev")];
    assert_eq!(look_up_cluster(&found, "dEV"), Ok("c-2".to_string()));
}

#[test]
fn resolve_compares_whole_names() {
    let found = vec![cluster("c-1", "dev")];
    assert!(look_up_cluster(&found, "de").is_err());
    assert!(look_up_cluster(&found, "dev1").is_err());
    let accented = vec![cluster("c-1", "\u{c9}t\u{e9}")];
    assert!(look_up_cluster(&accented, "\u{e9}t\u{e9}").is_err());
    assert_eq!(look_up_cluster(&accented, "\u{c9}T\u{e9}"), Ok("c-1".to_string()));
}

#[test]
fn ids_are_told_from_names() {
    assert!(check_cluster_id("local"));
    assert!(check_cluster_id("c-"));
    assert!(check_cluster_id("c-m-abcd1234"));
    assert!(!check_cluster_id("Local"));
    assert!(!check_cluster_id("C-m-abcd1234"));
    assert!(!check_cluster_id("c"));
    assert!(!check_cluster_id(""));
    assert!(!check_cluster_id("locally"));
}

// ---- list_clusters ---------------------------------------------------------

#[test]
fn list_clusters_tool_formats_clusters() {
    let out = stub(vec![cluster("c-m-abc", "prod")])
        .drive(server().list_clusters(ListClustersInput {}))
        .unwrap();
    assert!(out.contains("c-m-abc"), "output: {out}");
    assert!(out.contains("prod"), "output: {out}");
}

#[test]
fn list_clusters_tool_empty() {
    let out = stub(vec![]).drive(server().list_clusters(ListClustersInput {})).unwrap();
    assert!(out.contains("No clusters"), "output: {out}");
    assert_eq!(out, "No clusters found.");
}

#[test]
fn list_clusters_gives_one_line_each() {
    let mut second = cluster("local", "local");
    second.state = None;
    second.description = Some("this one".to_string());
    let out = stub(vec![cluster("c-m-abc", "prod"), second])
        .drive(server().list_clusters(ListClustersInput {}))
        .unwrap();
    assert_eq!(
        out,
        "- id=c-m-abc name=prod state=active \n- id=local name=local state=unknown (this one)"
    );
}

#[test]
fn cluster_lines_read_exactly() {
    assert_eq!(format_cluster(&cluster("c-1", "a")), "- id=c-1 name=a state=active ");
}

// ---- install_helm_chart ----------------------------------------------------

#[test]
fn install_returns_job_name_in_output() {
    let out = stub(vec![])
        .drive(server().install_helm_chart(install_input("nginx", "nginx/nginx")))
        .unwrap();
    assert!(out.contains("helm-install-nginx-abc12345"), "output: {out}");
    assert_eq!(
        out,
        "Helm install job created.\n\
         Job:       helm-install-nginx-abc12345\n\
         Namespace: test-ns\n\n\
         Use get_job_status(job_name=\"helm-install-nginx-abc12345\") to check progress and \
         retrieve logs."
    );
}

#[test]
fn install_passes_version_flag() {
    let mut stub = stub(vec![]);
    let mut input = install_input("nginx", "nginx/nginx");
    input.version = Some("1.2.3".to_string());
    stub.drive(server().install_helm_chart(input)).unwrap();
    let args = &stub.spawned[0].helm_args;
    let pos = args.iter().position(|a| a == "--version").expect("--version missing");
    assert_eq!(args[pos + 1], "1.2.3");
}

#[test]
fn install_passes_repo_flag() {
    let mut stub = stub(vec![]);
    let mut input = install_input("nginx", "nginx");
    input.repo = Some("https://charts.example.com".to_string());
    stub.drive(server().install_helm_chart(input)).unwrap();
    let args = &stub.spawned[0].helm_args;
    let pos = args.iter().position(|a| a == "--repo").expect("--repo missing");
    assert_eq!(args[pos + 1], "https://charts.example.com");
}

#[test]
fn install_omits_values_when_none() {
    let mut stub = stub(vec![]);
    stub.drive(server().install_helm_chart(install_input("nginx", "nginx/nginx"))).unwrap();
    assert!(stub.spawned[0].values_json.is_none());
    assert!(!stub.spawned[0].helm_args.contains(&"--values".to_string()));
}

#[test]
fn install_passes_values_as_json() {
    let mut stub = stub(vec![]);
    let mut input = install_input("nginx", "nginx/nginx");
    input.values = Some(replicas());
    stub.drive(server().install_helm_chart(input)).unwrap();
    let json_str = stub.spawned[0].values_json.as_ref().expect("values_json should be Some");
    let v: serde_json::Value = serde_json::from_str(json_str).unwrap();
    assert_eq!(v["replicas"], 3);
}

#[test]
fn values_are_written_in_the_long_form() {
    assert_eq!(values_json(&Some(replicas())), Some("{\n  \"replicas\": 3\n}".to_string()));
    assert_eq!(values_json(&Some(serde_json::Value::Null)), Some("null".to_string()));
    assert_eq!(values_json(&None), None);
}

#[test]
fn install_runs_are_put_together_in_order() {
    let mut input = install_input("Web App", "nginx/nginx");
    input.version = Some("1.2.3".to_string());
    input.repo = Some("https://charts.example.com".to_string());
    let run = install_request(&input, "kc".to_string(), Some("{}".to_string()));
    assert_eq!(run.job_label, "install");
    assert_eq!(run.release_name, "Web App");
    assert_eq!(run.kubeconfig, "kc");
    assert_eq!(run.values_json.as_deref(), Some("{}"));
    assert_eq!(
        run.helm_args,
        vec![
            "upgrade",
            "--install",
            "Web App",
            "nginx/nginx",
            "--namespace",
            "default",
            "--create-namespace",
            "--version",
            "1.2.3",
            "--repo",
            "https://charts.example.com",
        ]
    );
}

#[test]
fn install_uses_the_kubeconfig_of_its_cluster() {
    let mut stub = stub(vec![cluster("c-m-abc", "dev")]);
    let mut input = install_input("nginx", "nginx/nginx");
    input.cluster = "dev".to_string();
    stub.drive(server().install_helm_chart(input)).unwrap();
    assert_eq!(stub.asked_for_kubeconfig, vec!["c-m-abc"]);
    assert_eq!(stub.spawned.len(), 1);
    assert_eq!(stub.spawned[0].kubeconfig, "stub-kubeconfig");
    assert!(stub.waited.is_empty());
}

// ---- get_job_status --------------------------------------------------------

#[test]
fn get_job_status_formats_phase() {
    let out = stub(vec![])
        .drive(server().get_job_status(GetJobStatusInput {
            job_name: "helm-install-nginx-abc12345".to_string(),
        }))
        .unwrap();
    assert!(out.contains("Succeeded"), "output: {out}");
    assert!(out.contains("helm-install-nginx-abc12345"), "output: {out}");
    assert_eq!(out, "Job:    helm-install-nginx-abc12345\nStatus: Succeeded\n");
}

#[test]
fn get_job_status_includes_logs_when_present() {
    let mut stub = stub(vec![]);
    stub.get_logs = Some("Release \"nginx\" has been upgraded.".to_string());
    let out = stub
        .drive(server().get_job_status(GetJobStatusInput { job_name: "some-job".to_string() }))
        .unwrap();
    assert!(out.contains("Release \"nginx\""), "output: {out}");
    assert_eq!(
        out,
        "Job:    some-job\nStatus: Succeeded\n\nLogs:\nRelease \"nginx\" has been upgraded."
    );
}

// ---- list_helm_releases ----------------------------------------------------

#[test]
fn list_releases_returns_logs_as_output() {
    let mut stub = stub(vec![cluster("c-m-abc", "dev")]);
    stub.wait_logs = Some(r#"[{"name":"nginx"}]"#.to_string());
    let out = stub.drive(server().list_helm_releases(releases_input("dev", None))).unwrap();
    assert!(out.contains("nginx"), "output: {out}");
    assert_eq!(out, r#"[{"name":"nginx"}]"#);
}

#[test]
fn list_releases_passes_all_namespaces_when_no_filter() {
    let mut stub = stub(vec![]);
    stub.wait_logs = Some("[]".to_string());
    stub.drive(server().list_helm_releases(releases_input("local", None))).unwrap();
    let args = &stub.spawned[0].helm_args;
    assert!(args.contains(&"--all-namespaces".to_string()), "args: {:?}", args);
    assert_eq!(args, &vec!["list", "--output", "json", "--all-namespaces"]);
}

#[test]
fn list_releases_passes_namespace_filter() {
    let mut stub = stub(vec![]);
    stub.wait_logs = Some("[]".to_string());
    stub.drive(server().list_helm_releases(releases_input("local", Some("monitoring")))).unwrap();
    let args = &stub.spawned[0].helm_args;
    let pos = args.iter().position(|a| a == "--namespace").expect("--namespace missing");
    assert_eq!(args[pos + 1], "monitoring");
    assert!(!args.contains(&"--all-namespaces".to_string()));
}

#[test]
fn list_releases_waits_a_minute_for_its_job() {
    let mut stub = stub(vec![cluster("c-m-abc", "dev")]);
    stub.drive(server().list_helm_releases(releases_input("DEV", None))).unwrap();
    assert_eq!(stub.waited, vec![(JOB.to_string(), 60_000_000_000)]);
    assert_eq!(stub.spawned[0].job_label, "list");
    assert_eq!(stub.spawned[0].release_name, "c-m-abc");
    assert_eq!(stub.spawned[0].kubeconfig, "stub-kubeconfig");
    assert!(stub.spawned[0].values_json.is_none());
}

#[test]
fn list_releases_of_a_silent_run_is_empty() {
    let out = stub(vec![])
        .drive(server().list_helm_releases(releases_input("local", None)))
        .unwrap();
    assert_eq!(out, "[]");
}

#[test]
fn list_releases_reports_a_failed_run() {
    let failed = |logs: Option<String>| JobOutput { phase: "Failed", succeeded: false, logs };
    assert_eq!(
        releases_of(failed(Some("no such host".to_string()))),
        Err("helm list failed:\nno such host".to_string())
    );
    assert_eq!(releases_of(failed(None)), Err("helm list failed:\n(no logs)".to_string()));
}

#[test]
fn list_releases_of_an_unknown_cluster_fails() {
    let mut stub = stub(vec![cluster("c-m-abc", "dev")]);
    let err = stub.drive(server().list_helm_releases(releases_input("prod", None))).unwrap_err();
    assert!(err.message.contains("'prod' not found"), "error was: {}", err.message);
    assert!(stub.spawned.is_empty());
}

// ---- Failures --------------------------------------------------------------

#[test]
fn failures_end_a_call_with_their_message() {
    let call = waiting(server().list_clusters(ListClustersInput {}));
    let step = server().resume(call, ToolReply::Clusters(Err("no clusters".to_string())));
    assert_eq!(message(step), "no clusters");

    let mut input = install_input("nginx", "nginx");
    input.cluster = "dev".to_string();
    let call = waiting(server().install_helm_chart(input));
    let step = server().resume(call, ToolReply::Clusters(Err("no list".to_string())));
    assert_eq!(message(step), "no list");

    let call = waiting(server().install_helm_chart(install_input("nginx", "nginx")));
    let step = server().resume(call, ToolReply::Kubeconfig(Err("no config".to_string())));
    assert_eq!(message(step), "no config");

    let call = waiting(server().install_helm_chart(install_input("nginx", "nginx")));
    let call = waiting(server().resume(call, ToolReply::Kubeconfig(Ok("kc".to_string()))));
    let step = server().resume(call, ToolReply::Spawned(Err("no job".to_string())));
    assert_eq!(message(step), "no job");

    let input = GetJobStatusInput { job_name: "j".to_string() };
    let call = waiting(server().get_job_status(input));
    let step = server().resume(call, ToolReply::Output(Err("no output".to_string())));
    assert_eq!(message(step), "no output");
}

#[test]
fn failures_end_a_list_of_releases() {
    let call = waiting(server().list_helm_releases(releases_input("dev", None)));
    let step = server().resume(call, ToolReply::Clusters(Err("no list".to_string())));
    assert_eq!(message(step), "no list");

    let call = waiting(server().list_helm_releases(releases_input("local", None)));
    let step = server().resume(call, ToolReply::Kubeconfig(Err("no config".to_string())));
    assert_eq!(message(step), "no config");

    let call = waiting(server().list_helm_releases(releases_input("local", None)));
    let call = waiting(server().resume(call, ToolReply::Kubeconfig(Ok("kc".to_string()))));
    let step = server().resume(call, ToolReply::Spawned(Err("no job".to_string())));
    assert_eq!(message(step), "no job");

    let call = waiting(server().list_helm_releases(releases_input("local", None)));
    let call = waiting(server().resume(call, ToolReply::Kubeconfig(Ok("kc".to_string()))));
    let call = waiting(server().resume(call, ToolReply::Spawned(Ok(JOB.to_string()))));
    let step = server().resume(call, ToolReply::Output(Err("too late".to_string())));
    assert_eq!(message(step), "too late");
}

#[test]
fn replies_to_something_else_change_nothing() {
    let call = waiting(server().install_helm_chart(install_input("nginx", "nginx")));
    let call = waiting(server().resume(call, ToolReply::Spawned(Ok("x".to_string()))));
    match &call.request {
        ToolRequest::GenerateKubeconfig { cluster_id } => assert_eq!(cluster_id, "local"),
        _ => panic!("the kubeconfig is still asked for"),
    }
    let call = waiting(server().resume(call, ToolReply::Kubeconfig(Ok("kc".to_string()))));
    assert!(matches!(call.request, ToolRequest::SpawnHelmJob(_)));
}

#[test]
fn server_keeps_what_it_was_made_of() {
    assert_eq!(server().k8s().namespace(), "test-ns");
    assert_eq!(server().rancher().list_clusters().url, "https://rancher/v3/clusters");
}

#[test]
fn tools_make_few_requests() {
    let count = |step: ToolStep| {
        let mut stub = stub(vec![cluster("c-m-abc", "dev")]);
        let mut requests: usize = 0;
        let mut step = step;
        while let ToolStep::Ask(call) = step {
            requests += 1;
            let reply = stub.reply(&call);
            step = server().resume(call, reply);
        }
        requests
    };
    let mut by_name = install_input("nginx", "nginx");
    by_name.cluster = "dev".to_string();
    assert_eq!(count(server().list_clusters(ListClustersInput {})), 1);
    assert_eq!(
        count(server().get_job_status(GetJobStatusInput { job_name: "j".to_string() })),
        1
    );
    assert_eq!(count(server().install_helm_chart(install_input("nginx", "nginx"))), 2);
    assert_eq!(count(server().install_helm_chart(by_name)), 3);
    assert_eq!(count(server().list_helm_releases(releases_input("local", None))), 3);
    assert_eq!(count(server().list_helm_releases(releases_input("dev", None))), 4);
}
