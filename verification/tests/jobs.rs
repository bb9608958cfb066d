use rancher_helm_mcp::job_output::{
    check_final_phase, collected, job_state, JobOutput, JobStatus, OutputReply, OutputStep, WaitStep,
};
use rancher_helm_mcp::k8s::{HelmJobPlan, K8sJobRunner, SpawnStep};
use rancher_helm_mcp::string_map::StringMap;

const UUID: &str = "a3f2b1c0-1111-4222-8333-444455556666";

fn runner() -> K8sJobRunner {
    K8sJobRunner::new("rancher-helm".to_string(), "alpine/helm:3".to_string())
}

fn plan(values: Option<&str>) -> HelmJobPlan {
    runner().plan_helm_job(
        UUID,
        "install",
        "My_Nginx",
        vec!["upgrade".to_string(), "--install".to_string()],
        "apiVersion: v1",
        values,
    )
}

fn texts(map: &StringMap<String>) -> Vec<(String, String)> {
    let mut entries = map.entries().clone();
    entries.sort();
    entries
}

fn bytes(map: &StringMap<Vec<u8>>) -> Vec<(String, Vec<u8>)> {
    let mut entries = map.entries().clone();
    entries.sort();
    entries
}

fn pair(key: &str, value: &str) -> (String, String) {
    (key.to_string(), value.to_string())
}

// ---- Planning --------------------------------------------------------------

#[test]
fn secret_holds_the_credentials() {
    let secret = plan(Some("{\"caf\u{e9}\": 1}")).secret;
    assert_eq!(secret.name, "helm-install-my-nginx-a3f2b1c0-creds");
    assert_eq!(secret.namespace, "rancher-helm");
    assert_eq!(
        texts(&secret.labels),
        vec![pair("app.kubernetes.io/managed-by", "rancher-helm-mcp")]
    );
    assert_eq!(
        bytes(&secret.data),
        vec![
            ("kubeconfig".to_string(), b"apiVersion: v1".to_vec()),
            ("values.json".to_string(), "{\"caf\u{e9}\": 1}".as_bytes().to_vec()),
        ]
    );
}

#[test]
fn secret_without_values_holds_the_kubeconfig_alone() {
    assert_eq!(
        bytes(&plan(None).secret.data),
        vec![("kubeconfig".to_string(), b"apiVersion: v1".to_vec())]
    );
}

#[test]
fn job_runs_helm_once() {
    let job = plan(None).job;
    assert_eq!(job.name, "helm-install-my-nginx-a3f2b1c0");
    assert_eq!(job.namespace, "rancher-helm");
    assert_eq!(
        texts(&job.labels),
        vec![pair("app.kubernetes.io/managed-by", "rancher-helm-mcp")]
    );
    assert_eq!(
        texts(&job.pod_labels),
        vec![
            pair("app.kubernetes.io/managed-by", "rancher-helm-mcp"),
            pair("rancher-helm-mcp/release", "my-nginx"),
        ]
    );
    assert_eq!(job.ttl_seconds_after_finished, 3600);
    assert_eq!(job.backoff_limit, 0);
    assert_eq!(job.restart_policy, "Never");
    assert_eq!(job.containers.len(), 1);
    assert_eq!(job.containers[0].name, "helm");
    assert_eq!(job.containers[0].image, "alpine/helm:3");
    assert_eq!(job.containers[0].command, vec!["helm"]);
}

#[test]
fn job_mounts_the_secret_of_its_run() {
    let plan = plan(None);
    assert_eq!(plan.job.volumes.len(), 1);
    assert_eq!(plan.job.volumes[0].name, "helm-creds");
    assert_eq!(plan.job.volumes[0].secret_name, plan.secret.name);
    let mounts = &plan.job.containers[0].volume_mounts;
    assert_eq!(mounts.len(), 1);
    assert_eq!(mounts[0].name, "helm-creds");
    assert_eq!(mounts[0].mount_path, "/helm-creds");
    assert!(mounts[0].read_only);
}

#[test]
fn credential_flags_follow_the_arguments() {
    assert_eq!(
        plan(None).job.containers[0].args,
        vec!["upgrade", "--install", "--kubeconfig", "/helm-creds/kubeconfig"]
    );
    assert_eq!(
        plan(Some("{}")).job.containers[0].args,
        vec![
            "upgrade",
            "--install",
            "--kubeconfig",
            "/helm-creds/kubeconfig",
            "--values",
            "/helm-creds/values.json",
        ]
    );
}

#[test]
fn release_label_ends_clean() {
    let release = format!("{}-b", "a".repeat(39));
    let job = runner().plan_helm_job(UUID, "install", &release, vec![], "kc", None).job;
    assert!(texts(&job.pod_labels).contains(&pair("rancher-helm-mcp/release", &"a".repeat(39))));
    assert_eq!(job.name, format!("helm-install-{}-a3f2b1c0", "a".repeat(39)));
    let unnamed = runner().plan_helm_job(UUID, "install", "__", vec![], "kc", None).job;
    assert!(texts(&unnamed.pod_labels).contains(&pair("rancher-helm-mcp/release", "")));
}

#[test]
fn credentials_stay_in_the_secret() {
    let values = "{\"password\": \"hunter2\"}";
    let job = runner()
        .plan_helm_job(UUID, "install", "web", vec!["upgrade".to_string()], "top-secret", Some(values))
        .job;
    let mut shown = vec![job.name.clone(), job.namespace.clone()];
    shown.extend(job.containers[0].args.clone());
    shown.extend(job.containers[0].command.clone());
    for (key, value) in texts(&job.labels).into_iter().chain(texts(&job.pod_labels)) {
        shown.push(key);
        shown.push(value);
    }
    assert!(shown.iter().all(|text| !text.contains("top-secret") && !text.contains("hunter2")));
}

// ---- Spawning --------------------------------------------------------------

fn first_step() -> SpawnStep {
    runner().spawn_helm_job("install", "nginx", vec!["upgrade".to_string()], "kc", None)
}

fn first_plan() -> HelmJobPlan {
    match first_step() {
        SpawnStep::CreateSecret(plan) => plan,
        _ => panic!("the Secret comes first"),
    }
}

#[test]
fn spawned_jobs_end_in_random_digits() {
    let first = first_plan().job.name;
    let suffix = first.strip_prefix("helm-install-nginx-").expect("prefix missing");
    assert_eq!(suffix.len(), 8);
    assert!(suffix.chars().all(|c| c.is_ascii_digit() || ('a'..='f').contains(&c)));
    let more: Vec<String> = (0..4).map(|_| first_plan().job.name).collect();
    assert!(more.iter().any(|name| *name != first), "names: {more:?}");
}

#[test]
fn job_is_created_after_its_secret() {
    let step = SpawnStep::CreateSecret(plan(None)).resume(true);
    match &step {
        SpawnStep::CreateJob(job) => assert_eq!(job.name, "helm-install-my-nginx-a3f2b1c0"),
        _ => panic!("the Job comes next"),
    }
    match step.resume(true) {
        SpawnStep::Finished(result) => {
            assert_eq!(result, Ok("helm-install-my-nginx-a3f2b1c0".to_string()))
        }
        _ => panic!("nothing is left to create"),
    }
}

#[test]
fn refused_secret_ends_the_run() {
    match SpawnStep::CreateSecret(plan(None)).resume(false).resume(true) {
        SpawnStep::Finished(result) => assert_eq!(
            result,
            Err("failed to create Secret helm-install-my-nginx-a3f2b1c0-creds".to_string())
        ),
        _ => panic!("no Job without its Secret"),
    }
}

#[test]
fn refused_job_ends_the_run() {
    match SpawnStep::CreateSecret(plan(None)).resume(true).resume(false) {
        SpawnStep::Finished(result) => assert_eq!(
            result,
            Err("failed to create Job helm-install-my-nginx-a3f2b1c0".to_string())
        ),
        _ => panic!("nothing is left to create"),
    }
}

// ---- Output ----------------------------------------------------------------

fn status(active: Option<i32>, failed: Option<i32>, succeeded: Option<i32>) -> Option<JobStatus> {
    Some(JobStatus { active, failed, succeeded })
}

fn phase(status: Option<JobStatus>) -> (&'static str, bool, bool) {
    let state = job_state(status);
    (state.phase, state.succeeded, state.done)
}

#[test]
fn phases_are_read_off_the_counts() {
    assert_eq!(phase(None), ("Pending", false, false));
    assert_eq!(phase(status(None, None, None)), ("Pending", false, false));
    assert_eq!(phase(status(Some(0), Some(0), Some(0))), ("Pending", false, false));
    assert_eq!(phase(status(Some(-1), Some(-1), Some(-1))), ("Pending", false, false));
    assert_eq!(phase(status(Some(1), None, None)), ("Running", false, false));
    assert_eq!(phase(status(Some(1), Some(1), None)), ("Running", false, false));
    assert_eq!(phase(status(None, Some(1), None)), ("Failed", false, true));
    assert_eq!(phase(status(None, None, Some(1))), ("Succeeded", true, true));
    assert_eq!(phase(status(Some(0), Some(2), Some(1))), ("Succeeded", true, true));
    assert_eq!(phase(status(Some(1), None, Some(1))), ("Succeeded", true, false));
}

#[test]
fn two_phases_are_final() {
    assert!(check_final_phase("Succeeded"));
    assert!(check_final_phase("Failed"));
    assert!(!check_final_phase("Running"));
    assert!(!check_final_phase("Pending"));
    assert!(!check_final_phase("succeeded"));
}

fn finished(step: OutputStep) -> Result<(&'static str, bool, Option<String>), String> {
    match step {
        OutputStep::Finished(Ok(out)) => Ok((out.phase, out.succeeded, out.logs)),
        OutputStep::Finished(Err(message)) => Err(message),
        _ => panic!("something is still asked for"),
    }
}

#[test]
fn output_of_a_missing_job_is_an_error() {
    let step = runner().get_job_output("gone").resume(OutputReply::NoJob);
    assert_eq!(
        finished(step),
        Err("job gone not found in namespace rancher-helm".to_string())
    );
}

#[test]
fn output_of_a_running_job_has_no_logs() {
    let step =
        runner().get_job_output("j").resume(OutputReply::Job(status(Some(1), None, None)));
    assert_eq!(finished(step), Ok(("Running", false, None)));
    let step =
        runner().get_job_output("j").resume(OutputReply::Job(status(Some(1), None, Some(1))));
    assert_eq!(finished(step), Ok(("Succeeded", true, None)));
}

fn listing(status: Option<JobStatus>) -> OutputStep {
    runner().get_job_output("helm-install-nginx-a3f2b1c0").resume(OutputReply::Job(status))
}

#[test]
fn pods_are_found_by_the_name_of_the_job() {
    match listing(status(None, None, Some(1))) {
        OutputStep::ListPods { namespace, selector, .. } => {
            assert_eq!(namespace, "rancher-helm");
            assert_eq!(selector, "batch.kubernetes.io/job-name=helm-install-nginx-a3f2b1c0")
        }
        _ => panic!("the pods come next"),
    }
}

#[test]
fn logs_of_all_pods_are_joined() {
    let pods = vec![Some("p1".to_string()), None, Some("p2".to_string()), Some("p3".to_string())];
    let step = listing(status(None, Some(1), None)).resume(OutputReply::Pods(pods));
    match &step {
        OutputStep::FetchLogs { namespace, pod, container, .. } => {
            assert_eq!(namespace, "rancher-helm");
            assert_eq!(pod, "p1");
            assert_eq!(*container, "helm");
        }
        _ => panic!("the logs come next"),
    }
    let step = step.resume(OutputReply::Logs("one".to_string()));
    match &step {
        OutputStep::FetchLogs { pod, .. } => assert_eq!(pod, "p2"),
        _ => panic!("two pods are left"),
    }
    let step = step.resume(OutputReply::NoLogs);
    match &step {
        OutputStep::FetchLogs { namespace, pod, .. } => {
            assert_eq!(namespace, "rancher-helm");
            assert_eq!(pod, "p3");
        }
        _ => panic!("one pod is left"),
    }
    let step = step.resume(OutputReply::Logs("three".to_string()));
    assert_eq!(finished(step), Ok(("Failed", false, Some("one\nthree".to_string()))));
}

#[test]
fn output_without_any_logs_has_none() {
    let done = status(None, None, Some(1));
    assert_eq!(finished(listing(done).resume(OutputReply::NoPods)), Ok(("Succeeded", true, None)));
    assert_eq!(
        finished(listing(done).resume(OutputReply::Pods(vec![None]))),
        Ok(("Succeeded", true, None))
    );
    let step = listing(done).resume(OutputReply::Pods(vec![Some("p".to_string())]));
    assert_eq!(finished(step.resume(OutputReply::NoLogs)), Ok(("Succeeded", true, None)));
}

#[test]
fn collected_logs_are_joined_or_the_listing_failed() {
    let logs = vec!["one".to_string(), "two".to_string()];
    assert_eq!(collected(true, &logs), Ok(Some("one\ntwo".to_string())));
    assert_eq!(collected(true, &vec![String::new()]), Ok(Some(String::new())));
    assert_eq!(collected(true, &vec![]), Ok(None));
    assert_eq!(collected(false, &vec![]), Err("failed to list job pods".to_string()));
    assert_eq!(collected(false, &logs), Err("failed to list job pods".to_string()));
}

#[test]
fn empty_logs_are_still_logs() {
    let step = listing(status(None, None, Some(1)))
        .resume(OutputReply::Pods(vec![Some("p".to_string())]))
        .resume(OutputReply::Logs(String::new()));
    assert_eq!(finished(step), Ok(("Succeeded", true, Some(String::new()))));
}

#[test]
fn output_replies_to_something_else_change_nothing() {
    match runner().get_job_output("j").resume(OutputReply::NoLogs) {
        OutputStep::GetJob { job_name, namespace } => {
            assert_eq!(job_name, "j");
            assert_eq!(namespace, "rancher-helm");
        }
        _ => panic!("the Job is still asked for"),
    }
}

// ---- Waiting ---------------------------------------------------------------

fn output(phase: &'static str) -> Result<JobOutput, String> {
    Ok(JobOutput { phase, succeeded: phase == "Succeeded", logs: Some("l".to_string()) })
}

fn poll(timeout_nanos: u128, polled: Result<JobOutput, String>, elapsed_nanos: u128) -> WaitStep {
    runner().wait_for_job("j", timeout_nanos).after_poll(polled, elapsed_nanos)
}

#[test]
fn wait_pauses_between_looks() {
    let minute = 60_000_000_000;
    assert!(matches!(poll(minute, output("Pending"), 0), WaitStep::Sleep { seconds: 3 }));
    assert!(matches!(
        poll(minute, output("Running"), minute - 1),
        WaitStep::Sleep { seconds: 3 }
    ));
}

#[test]
fn wait_ends_with_a_finished_job() {
    match poll(60_000_000_000, output("Succeeded"), 5) {
        WaitStep::Finished(Ok(out)) => {
            assert_eq!(out.phase, "Succeeded");
            assert!(out.succeeded);
            assert_eq!(out.logs.as_deref(), Some("l"));
        }
        _ => panic!("the Job has finished"),
    }
    match poll(1, output("Failed"), 5) {
        WaitStep::Finished(Ok(out)) => assert_eq!(out.phase, "Failed"),
        _ => panic!("a finished Job is never too late"),
    }
}

#[test]
fn wait_runs_out_of_time() {
    match poll(60_000_000_000, output("Running"), 60_000_000_000) {
        WaitStep::Finished(Err(message)) => {
            assert_eq!(message, "job j did not complete within 60s")
        }
        _ => panic!("the time is up"),
    }
    match poll(2_999_999_999, output("Pending"), 3_000_000_000) {
        WaitStep::Finished(Err(message)) => assert_eq!(message, "job j did not complete within 2s"),
        _ => panic!("the time is up"),
    }
    match poll(0, output("Pending"), 0) {
        WaitStep::Finished(Err(message)) => assert_eq!(message, "job j did not complete within 0s"),
        _ => panic!("there was no time"),
    }
}

#[test]
fn wait_ends_with_a_failed_look() {
    match poll(60_000_000_000, Err("job j not found in namespace n".to_string()), 0) {
        WaitStep::Finished(Err(message)) => assert_eq!(message, "job j not found in namespace n"),
        _ => panic!("the look failed"),
    }
}
