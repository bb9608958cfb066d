//! The inputs of the tools, and the helm runs that they stand for.
use vstd::prelude::*;

use crate::k8s;
use crate::k8s::HelmJobRequest;
use crate::names;

verus! {

// ---- Inputs ---------------------------------------------------------------
/// The input of `list_clusters`.
pub struct ListClustersInput {}

/// The input of `install_helm_chart`.
pub struct InstallChartInput {
    pub cluster: String,
    pub namespace: String,
    pub release_name: String,
    pub chart: String,
    pub version: Option<String>,
    pub repo: Option<String>,
    pub values: Option<serde_json::Value>,
}

/// What an [`InstallChartInput`] holds.
pub struct InstallView {
    pub cluster: Seq<char>,
    pub namespace: Seq<char>,
    pub release_name: Seq<char>,
    pub chart: Seq<char>,
    pub version: Option<Seq<char>>,
    pub repo: Option<Seq<char>>,
    pub values: Option<serde_json::Value>,
}

impl View for InstallChartInput {
    type V = InstallView;

    open spec fn view(&self) -> InstallView {
        InstallView {
            cluster: self.cluster@,
            namespace: self.namespace@,
            release_name: self.release_name@,
            chart: self.chart@,
            version: self.version.deep_view(),
            repo: self.repo.deep_view(),
            values: self.values,
        }
    }
}

/// The input of `get_job_status`.
pub struct GetJobStatusInput {
    pub job_name: String,
}

/// The input of `list_helm_releases`.
pub struct ListReleasesInput {
    pub cluster: String,
    pub namespace: Option<String>,
}

/// What a [`ListReleasesInput`] holds.
pub struct ReleasesView {
    pub cluster: Seq<char>,
    pub namespace: Option<Seq<char>>,
}

impl View for ListReleasesInput {
    type V = ReleasesView;

    open spec fn view(&self) -> ReleasesView {
        ReleasesView { cluster: self.cluster@, namespace: self.namespace.deep_view() }
    }
}

// ---- JSON values ----------------------------------------------------------
/// Declares `serde_json::Value`, a JSON value; it is only handed on.
#[verifier::external_type_specification]
#[verifier::external_body]
pub struct ExJsonValue(serde_json::Value);

/// The text that `serde_json::to_string_pretty` makes of a JSON value, or
/// nothing where it fails.
pub uninterp spec fn pretty_json(value: serde_json::Value) -> Option<Seq<char>>;

/// Trusted: `serde_json::to_string_pretty` on a JSON value. Claims that the
/// text depends on the value alone; [`pretty_json`] names it.
#[verifier::external_body]
fn to_pretty_json(value: &serde_json::Value) -> (r: Option<String>)
    ensures
        r.deep_view() == pretty_json(*value),
{
    serde_json::to_string_pretty(value).ok()
}

/// The values of an install as JSON text; what has no JSON text is empty.
pub open spec fn values_text(values: Option<serde_json::Value>) -> Option<Seq<char>> {
    match values {
        Some(value) => Some(
            match pretty_json(value) {
                Some(text) => text,
                None => Seq::empty(),
            },
        ),
        None => None,
    }
}

/// Writes the values of an install as JSON text.
pub fn values_json(values: &Option<serde_json::Value>) -> (r: Option<String>)
    ensures
        r.deep_view() == values_text(*values),
{
    match values {
        Some(value) => Some(
            match to_pretty_json(value) {
                Some(text) => text,
                None => String::new(),
            },
        ),
        None => None,
    }
}

// ---- Helm arguments -------------------------------------------------------
/// A flag with its value, where there is one.
pub open spec fn optional_flag(flag: Seq<char>, value: Option<Seq<char>>) -> Seq<Seq<char>> {
    match value {
        Some(value) => seq![flag, value],
        None => Seq::empty(),
    }
}

/// The arguments of every install or upgrade.
pub open spec fn upgrade_args(input: InstallView) -> Seq<Seq<char>> {
    seq![
        "upgrade"@,
        "--install"@,
        input.release_name,
        input.chart,
        "--namespace"@,
        input.namespace,
        "--create-namespace"@,
    ]
}

/// The arguments of an install or upgrade, with the version and the repository
/// where they are given.
pub open spec fn install_args(input: InstallView) -> Seq<Seq<char>> {
    upgrade_args(input) + optional_flag("--version"@, input.version) + optional_flag(
        "--repo"@,
        input.repo,
    )
}

/// The arguments that list the releases, of one namespace or of all.
pub open spec fn list_args(namespace: Option<Seq<char>>) -> Seq<Seq<char>> {
    seq!["list"@, "--output"@, "json"@] + (match namespace {
        Some(namespace) => seq!["--namespace"@, namespace],
        None => seq!["--all-namespaces"@],
    })
}

/// The helm run of an install.
pub open spec fn install_run(
    input: InstallView,
    kubeconfig: Seq<char>,
    values_json: Option<Seq<char>>,
) -> k8s::RunView {
    k8s::RunView {
        job_label: "install"@,
        release_name: input.release_name,
        helm_args: install_args(input),
        kubeconfig,
        values_json,
    }
}

/// The helm run that lists the releases of a cluster. It has no release of its
/// own; the cluster's ID stands in for one.
pub open spec fn list_run(
    input: ReleasesView,
    cluster_id: Seq<char>,
    kubeconfig: Seq<char>,
) -> k8s::RunView {
    k8s::RunView {
        job_label: "list"@,
        release_name: cluster_id,
        helm_args: list_args(input.namespace),
        kubeconfig,
        values_json: None,
    }
}

/// Puts together the helm run of an install; `values_json` is the text of the
/// values.
pub fn install_request(
    input: &InstallChartInput,
    kubeconfig: String,
    values_json: Option<String>,
) -> (r: HelmJobRequest)
    ensures
        r@ == install_run(input@, kubeconfig@, values_json.deep_view()),
{
    let mut args: Vec<String> = Vec::new();
    args.push("upgrade".to_string());
    args.push("--install".to_string());
    args.push(input.release_name.clone());
    args.push(input.chart.clone());
    args.push("--namespace".to_string());
    args.push(input.namespace.clone());
    args.push("--create-namespace".to_string());
    assert(args.deep_view() =~= upgrade_args(input@));
    if let Some(version) = &input.version {
        args.push("--version".to_string());
        args.push(version.clone());
    }
    assert(args.deep_view() =~= upgrade_args(input@) + optional_flag(
        "--version"@,
        input@.version,
    ));
    if let Some(repo) = &input.repo {
        args.push("--repo".to_string());
        args.push(repo.clone());
    }
    assert(args.deep_view() =~= install_args(input@));
    HelmJobRequest {
        job_label: "install".to_string(),
        release_name: input.release_name.clone(),
        helm_args: args,
        kubeconfig,
        values_json,
    }
}

/// Puts together the helm run that lists the releases of a cluster.
pub fn list_request(input: &ListReleasesInput, cluster_id: String, kubeconfig: String) -> (r:
    HelmJobRequest)
    ensures
        r@ == list_run(input@, cluster_id@, kubeconfig@),
{
    let mut args: Vec<String> = Vec::new();
    args.push("list".to_string());
    args.push("--output".to_string());
    args.push("json".to_string());
    if let Some(namespace) = &input.namespace {
        args.push("--namespace".to_string());
        args.push(namespace.clone());
    } else {
        args.push("--all-namespaces".to_string());
    }
    assert(args.deep_view() =~= list_args(input@.namespace));
    HelmJobRequest {
        job_label: "list".to_string(),
        release_name: cluster_id,
        helm_args: args,
        kubeconfig,
        values_json: None,
    }
}

// ---- Laws -----------------------------------------------------------------
/// The arguments of an install name the release, the chart and the namespace.
/// A version and a repository are passed behind their flags where they are
/// given, and nothing is passed in their place where they are not.
pub proof fn law_install_flags(input: InstallView)
    ensures
        upgrade_args(input).is_prefix_of(install_args(input)),
        input.version matches Some(version) ==> k8s::has_flag(
            install_args(input),
            "--version"@,
            version,
        ),
        input.repo matches Some(repo) ==> k8s::has_flag(install_args(input), "--repo"@, repo),
        input.version is None && input.repo is None ==> install_args(input) == upgrade_args(input),
        install_args(input).len() == 7 + (if input.version is Some {
            2int
        } else {
            0
        }) + (if input.repo is Some {
            2int
        } else {
            0
        }),
{
    let args = install_args(input);
    assert(args.subrange(0, 7) =~= upgrade_args(input));
    if let Some(version) = input.version {
        assert(args[7] == "--version"@);
        assert(args[8] == version);
    }
    if let Some(repo) = input.repo {
        let at = args.len() - 2;
        assert(args[at] == "--repo"@);
        assert(args[at + 1] == repo);
    }
    if input.version is None && input.repo is None {
        assert(args =~= upgrade_args(input));
    }
}

/// A list of releases is for the namespace given, or for all of them.
pub proof fn law_list_flags(namespace: Option<Seq<char>>)
    ensures
        namespace matches Some(name) ==> {
            &&& k8s::has_flag(list_args(namespace), "--namespace"@, name)
            &&& list_args(namespace).len() == 5
        },
        namespace is None ==> list_args(namespace) == seq![
            "list"@,
            "--output"@,
            "json"@,
            "--all-namespaces"@,
        ],
{
    let args = list_args(namespace);
    if let Some(name) = namespace {
        assert(args[3] == "--namespace"@);
        assert(args[4] == name);
    } else {
        assert(args =~= seq!["list"@, "--output"@, "json"@, "--all-namespaces"@]);
    }
}

/// The values of an install reach helm as their JSON text, in the Secret and
/// behind `--values`; where there are none, helm gets none.
pub proof fn law_values_reach_the_job(
    runner: k8s::RunnerView,
    input: InstallView,
    kubeconfig: Seq<char>,
    uuid: Seq<char>,
)
    ensures
        ({
            let run = install_run(input, kubeconfig, values_text(input.values));
            let plan = k8s::plan_of(runner, run, uuid);
            let args = plan.job.containers[0].args;
            match input.values {
                Some(value) => {
                    &&& k8s::has_flag(args, "--values"@, "/helm-creds/values.json"@)
                    &&& pretty_json(value) matches Some(text) ==> plan.secret.data.contains_pair(
                        "values.json"@,
                        vstd::utf8::encode_utf8(text),
                    )
                },
                None => {
                    &&& args == install_args(input) + seq![
                        "--kubeconfig"@,
                        "/helm-creds/kubeconfig"@,
                    ]
                    &&& !plan.secret.data.contains_key("values.json"@)
                },
            }
        }),
{
    let run = install_run(input, kubeconfig, values_text(input.values));
    let plan = k8s::plan_of(runner, run, uuid);
    let args = plan.job.containers[0].args;
    k8s::law_flags_name_mounted_files(runner, run, uuid);
    if input.values is Some {
        let n = run.helm_args.len() as int;
        assert(args[n + 2] == "--values"@);
        assert(args[n + 3] == "/helm-creds/values.json"@);
    } else {
        assert(args =~= install_args(input) + seq!["--kubeconfig"@, "/helm-creds/kubeconfig"@]);
    }
}

/// The tools hand no credentials to the Job: its manifest is the same for any
/// text of the kubeconfig and, for an install, of the values.
pub proof fn law_tool_jobs_hold_no_credentials(
    runner: k8s::RunnerView,
    install: InstallView,
    releases: ReleasesView,
    cluster_id: Seq<char>,
    kubeconfig: Seq<char>,
    other_kubeconfig: Seq<char>,
    values: Seq<char>,
    other_values: Seq<char>,
    uuid: Seq<char>,
)
    ensures
        k8s::plan_of(runner, install_run(install, kubeconfig, Some(values)), uuid).job
            == k8s::plan_of(
            runner,
            install_run(install, other_kubeconfig, Some(other_values)),
            uuid,
        ).job,
        k8s::plan_of(runner, install_run(install, kubeconfig, None), uuid).job == k8s::plan_of(
            runner,
            install_run(install, other_kubeconfig, None),
            uuid,
        ).job,
        k8s::plan_of(runner, list_run(releases, cluster_id, kubeconfig), uuid).job == k8s::plan_of(
            runner,
            list_run(releases, cluster_id, other_kubeconfig),
            uuid,
        ).job,
{
    k8s::law_credentials_stay_in_the_secret(
        runner,
        install_run(install, kubeconfig, Some(values)),
        install_run(install, other_kubeconfig, Some(other_values)),
        uuid,
    );
    k8s::law_credentials_stay_in_the_secret(
        runner,
        install_run(install, kubeconfig, None),
        install_run(install, other_kubeconfig, None),
        uuid,
    );
    k8s::law_credentials_stay_in_the_secret(
        runner,
        list_run(releases, cluster_id, kubeconfig),
        list_run(releases, cluster_id, other_kubeconfig),
        uuid,
    );
}

/// The Jobs of the tools have names that Kubernetes takes, whatever the
/// release or the cluster is called.
pub proof fn law_tool_jobs_have_valid_names(
    runner: k8s::RunnerView,
    install: InstallView,
    releases: ReleasesView,
    cluster_id: Seq<char>,
    kubeconfig: Seq<char>,
    values_json: Option<Seq<char>>,
    uuid: Seq<char>,
)
    requires
        names::is_uuid_v4_text(uuid),
    ensures
        ({
            let plan = k8s::plan_of(runner, install_run(install, kubeconfig, values_json), uuid);
            names::is_dns_label(plan.job.name) && names::is_dns_subdomain_of_one_label(
                plan.secret.name,
            )
        }),
        ({
            let plan = k8s::plan_of(runner, list_run(releases, cluster_id, kubeconfig), uuid);
            names::is_dns_label(plan.job.name) && names::is_dns_subdomain_of_one_label(
                plan.secret.name,
            )
        }),
{
    reveal_strlit("install");
    reveal_strlit("list");
    names::law_object_names_are_valid("install"@, install.release_name, uuid);
    names::law_object_names_are_valid("list"@, cluster_id, uuid);
}

/// An install runs `helm upgrade --install` with the release, the chart and the
/// namespace of its input, creates the namespace where there is none, and
/// passes the version and the repository where they are given; there are no
/// further arguments.
pub proof fn law_install_arguments(input: InstallChartInput)
    ensures
        ({
            let args = install_args(input@);
            let at: int = if input.version is Some {
                9
            } else {
                7
            };
            &&& args[0] == "upgrade"@
            &&& args[1] == "--install"@
            &&& args[2] == input.release_name@
            &&& args[3] == input.chart@
            &&& args[4] == "--namespace"@
            &&& args[5] == input.namespace@
            &&& args[6] == "--create-namespace"@
            &&& k8s::has_flag(args, "--namespace"@, input.namespace@)
            &&& match input.version {
                Some(version) => args[7] == "--version"@ && args[8] == version@,
                None => true,
            }
            &&& match input.repo {
                Some(repo) => {
                    &&& args.len() == at + 2
                    &&& args[at] == "--repo"@
                    &&& args[at + 1] == repo@
                },
                None => args.len() == at,
            }
        }),
{
    let args = install_args(input@);
    assert(args[4] == "--namespace"@ && args[5] == input.namespace@);
}

/// A list of releases runs `helm list` with JSON output, for the namespace of
/// its input or for all of them; there are no further arguments.
pub proof fn law_list_arguments(input: ListReleasesInput)
    ensures
        ({
            let args = list_args(input@.namespace);
            &&& args[0] == "list"@
            &&& args[1] == "--output"@
            &&& args[2] == "json"@
            &&& k8s::has_flag(args, "--output"@, "json"@)
            &&& match input.namespace {
                Some(namespace) => {
                    &&& args.len() == 5
                    &&& args[3] == "--namespace"@
                    &&& args[4] == namespace@
                },
                None => args.len() == 4 && args[3] == "--all-namespaces"@,
            }
        }),
{
    let args = list_args(input@.namespace);
    assert(args[1] == "--output"@ && args[2] == "json"@);
}

/// The run of an install is labelled `install` and named after the release; it
/// carries the kubeconfig and the values that were handed in, and the arguments
/// of the install.
pub proof fn law_install_run_carries_its_input(
    input: InstallChartInput,
    kubeconfig: Seq<char>,
    values_json: Option<Seq<char>>,
    run: HelmJobRequest,
)
    requires
        run@ == install_run(input@, kubeconfig, values_json),
    ensures
        run.job_label@ == "install"@,
        run.release_name@ == input.release_name@,
        run.kubeconfig@ == kubeconfig,
        run.values_json.deep_view() == values_json,
        run.helm_args@.len() == install_args(input@).len(),
        run.helm_args@[2]@ == input.release_name@,
        run.helm_args@[3]@ == input.chart@,
        run.helm_args@[5]@ == input.namespace@,
        forall|i: int|
            0 <= i < run.helm_args@.len() ==> (#[trigger] run.helm_args@[i])@ == install_args(
                input@,
            )[i],
{
    law_install_arguments(input);
    assert(run@.helm_args == install_args(input@));
    assert(run.helm_args@.len() == run@.helm_args.len());
    assert forall|i: int| 0 <= i < run.helm_args@.len() implies (#[trigger] run.helm_args@[i])@
        == install_args(input@)[i] by {
        assert(run@.helm_args[i] == run.helm_args@[i]@);
    }
    assert(run.helm_args@[2]@ == install_args(input@)[2]);
    assert(run.helm_args@[3]@ == install_args(input@)[3]);
    assert(run.helm_args@[5]@ == install_args(input@)[5]);
}

/// The run of a list of releases is labelled `list` and named after the
/// cluster; it carries the kubeconfig that was handed in, the arguments of the
/// list, and no values.
pub proof fn law_list_run_carries_its_input(
    input: ListReleasesInput,
    cluster_id: Seq<char>,
    kubeconfig: Seq<char>,
    run: HelmJobRequest,
)
    requires
        run@ == list_run(input@, cluster_id, kubeconfig),
    ensures
        run.job_label@ == "list"@,
        run.release_name@ == cluster_id,
        run.kubeconfig@ == kubeconfig,
        run.values_json is None,
        run.helm_args@.len() == list_args(input@.namespace).len(),
        forall|i: int|
            0 <= i < run.helm_args@.len() ==> (#[trigger] run.helm_args@[i])@ == list_args(
                input@.namespace,
            )[i],
{
    assert(run@.helm_args == list_args(input@.namespace));
    assert(run.helm_args@.len() == run@.helm_args.len());
    assert forall|i: int| 0 <= i < run.helm_args@.len() implies (#[trigger] run.helm_args@[i])@
        == list_args(input@.namespace)[i] by {
        assert(run@.helm_args[i] == run.helm_args@[i]@);
    }
}

/// Values are passed on exactly where there are some, as their JSON text; what
/// has no JSON text is passed on as an empty text.
pub proof fn law_values_are_their_json_text(value: serde_json::Value)
    ensures
        values_text(None) is None,
        match pretty_json(value) {
            Some(text) => values_text(Some(value)) == Some(text),
            None => values_text(Some(value)) matches Some(text) && text.len() == 0,
        },
{
}

} // verus!
