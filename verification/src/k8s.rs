//! Running helm in Kubernetes Jobs.
//!
//! A run begins with a plan of the objects to create. The Secret with the
//! credentials is created first, then the Job that mounts it.
use vstd::prelude::*;
use vstd::string::{StrSliceExecFns, StringExecFns};

use crate::manifest::{Container, JobManifest, SecretManifest, SecretVolume, VolumeMount};
use crate::names;
use crate::string_map::StringMap;

verus! {

/// The label that marks every object created here.
pub const MANAGED_BY_LABEL: &'static str = "app.kubernetes.io/managed-by";

/// The value of that label.
pub const MANAGED_BY_VALUE: &'static str = "rancher-helm-mcp";

/// The label that carries the release on the pods of a Job.
pub const RELEASE_LABEL: &'static str = "rancher-helm-mcp/release";

/// The name of the container that runs helm.
pub const HELM_CONTAINER: &'static str = "helm";

/// Creates and inspects the helm Jobs of one namespace.
pub struct K8sJobRunner {
    pub namespace: String,
    helm_image: String,
}

/// What a [`K8sJobRunner`] holds.
pub struct RunnerView {
    pub namespace: Seq<char>,
    pub helm_image: Seq<char>,
}

impl View for K8sJobRunner {
    type V = RunnerView;

    closed spec fn view(&self) -> RunnerView {
        RunnerView { namespace: self.namespace@, helm_image: self.helm_image@ }
    }
}

// ---- The objects of a run -------------------------------------------------
/// What one helm run is asked to do. `job_label` is the kind of run, and
/// `helm_args` is everything passed after the `helm` binary.
pub struct HelmJobRequest {
    pub job_label: String,
    pub release_name: String,
    pub helm_args: Vec<String>,
    pub kubeconfig: String,
    pub values_json: Option<String>,
}

/// What a [`HelmJobRequest`] holds.
#[verifier::ext_equal]
pub struct RunView {
    pub job_label: Seq<char>,
    pub release_name: Seq<char>,
    pub helm_args: Seq<Seq<char>>,
    pub kubeconfig: Seq<char>,
    pub values_json: Option<Seq<char>>,
}

impl View for HelmJobRequest {
    type V = RunView;

    open spec fn view(&self) -> RunView {
        RunView {
            job_label: self.job_label@,
            release_name: self.release_name@,
            helm_args: self.helm_args.deep_view(),
            kubeconfig: self.kubeconfig@,
            values_json: self.values_json.deep_view(),
        }
    }
}

/// The objects that one helm run creates.
pub struct HelmJobPlan {
    pub secret: SecretManifest,
    pub job: JobManifest,
}

/// What a [`HelmJobPlan`] holds.
#[verifier::ext_equal]
pub struct PlanView {
    pub secret: crate::manifest::SecretView,
    pub job: crate::manifest::JobView,
}

impl View for HelmJobPlan {
    type V = PlanView;

    open spec fn view(&self) -> PlanView {
        PlanView { secret: self.secret@, job: self.job@ }
    }
}

/// The labels of every object created here.
pub open spec fn managed_labels() -> Map<Seq<char>, Seq<char>> {
    Map::<Seq<char>, Seq<char>>::empty().insert(MANAGED_BY_LABEL@, MANAGED_BY_VALUE@)
}

/// The data of the Secret: the kubeconfig and, where there are values, the
/// values, both as UTF-8.
pub open spec fn secret_data(run: RunView) -> Map<Seq<char>, Seq<u8>> {
    let with_config = Map::<Seq<char>, Seq<u8>>::empty().insert(
        "kubeconfig"@,
        vstd::utf8::encode_utf8(run.kubeconfig),
    );
    match run.values_json {
        Some(values) => with_config.insert("values.json"@, vstd::utf8::encode_utf8(values)),
        None => with_config,
    }
}

/// The flags that point helm at the mounted credentials.
pub open spec fn credential_flags(with_values: bool) -> Seq<Seq<char>> {
    let config = seq!["--kubeconfig"@, "/helm-creds/kubeconfig"@];
    if with_values {
        config + seq!["--values"@, "/helm-creds/values.json"@]
    } else {
        config
    }
}

/// The objects of a run whose name ends in what `uuid` gives.
pub open spec fn plan_of(runner: RunnerView, run: RunView, uuid: Seq<char>) -> PlanView {
    let name = names::job_name_of(run.job_label, run.release_name, uuid);
    PlanView {
        secret: crate::manifest::SecretView {
            name: names::secret_name_of(name),
            namespace: runner.namespace,
            labels: managed_labels(),
            data: secret_data(run),
        },
        job: crate::manifest::JobView {
            name,
            namespace: runner.namespace,
            labels: managed_labels(),
            ttl_seconds_after_finished: 3600,
            backoff_limit: 0,
            pod_labels: managed_labels().insert(
                RELEASE_LABEL@,
                names::sanitized(run.release_name),
            ),
            restart_policy: "Never"@,
            containers: seq![
                crate::manifest::ContainerView {
                    name: HELM_CONTAINER@,
                    image: runner.helm_image,
                    command: seq!["helm"@],
                    args: run.helm_args + credential_flags(run.values_json is Some),
                    volume_mounts: seq![
                        crate::manifest::VolumeMountView {
                            name: "helm-creds"@,
                            mount_path: "/helm-creds"@,
                            read_only: true,
                        },
                    ],
                },
            ],
            volumes: seq![
                crate::manifest::SecretVolumeView {
                    name: "helm-creds"@,
                    secret_name: names::secret_name_of(name),
                },
            ],
        },
    }
}

/// Computes [`managed_labels`].
fn new_managed_labels() -> (r: StringMap<String>)
    ensures
        r@ == managed_labels(),
{
    StringMap::new().with(MANAGED_BY_LABEL, MANAGED_BY_VALUE.to_string())
}

/// The helm arguments followed by the credential flags.
fn with_credential_flags(helm_args: Vec<String>, with_values: bool) -> (r: Vec<String>)
    ensures
        r.deep_view() == helm_args.deep_view() + credential_flags(with_values),
{
    let mut args = helm_args;
    args.push("--kubeconfig".to_string());
    args.push("/helm-creds/kubeconfig".to_string());
    if with_values {
        args.push("--values".to_string());
        args.push("/helm-creds/values.json".to_string());
    }
    assert(args.deep_view() =~= helm_args.deep_view() + credential_flags(with_values));
    args
}

impl K8sJobRunner {
    /// A runner for the Jobs of `namespace`, whose containers run `helm_image`.
    pub fn new(namespace: String, helm_image: String) -> (r: Self)
        ensures
            r@ == (RunnerView { namespace: namespace@, helm_image: helm_image@ }),
    {
        K8sJobRunner { namespace, helm_image }
    }

    /// The namespace of the Jobs.
    pub fn namespace(&self) -> (r: &str)
        ensures
            r@ == self@.namespace,
    {
        self.namespace.as_str()
    }

    /// Plans the objects of one run. `uuid` is a UUID's text; it makes the
    /// names unique. `helm_args` is everything passed after the `helm` binary.
    /// The kubeconfig and the values are mounted from the Secret, and the
    /// flags that name the mounted files are appended to the arguments.
    pub fn plan_helm_job(
        &self,
        uuid: &str,
        job_label: &str,
        release_name: &str,
        helm_args: Vec<String>,
        kubeconfig: &str,
        values_json: Option<&str>,
    ) -> (r: HelmJobPlan)
        ensures
            r@ == plan_of(
                self@,
                (RunView {
                    job_label: job_label@,
                    release_name: release_name@,
                    helm_args: helm_args.deep_view(),
                    kubeconfig: kubeconfig@,
                    values_json: values_json.deep_view(),
                }),
                uuid@,
            ),
    {
        let suffix = names::job_suffix(uuid);
        let safe_release = names::sanitize_k8s_name(release_name);
        let job_name = names::job_name(job_label, safe_release.as_str(), suffix.as_str());
        let secret_name = names::secret_name(job_name.as_str());
        let mut data = StringMap::new().with("kubeconfig", kubeconfig.as_bytes_vec());
        if let Some(values) = values_json {
            data = data.with("values.json", values.as_bytes_vec());
        }
        let secret = SecretManifest {
            name: secret_name.clone(),
            namespace: self.namespace.clone(),
            labels: new_managed_labels(),
            data,
        };
        let mut command: Vec<String> = Vec::new();
        command.push("helm".to_string());
        let mut volume_mounts: Vec<VolumeMount> = Vec::new();
        volume_mounts.push(
            VolumeMount {
                name: "helm-creds".to_string(),
                mount_path: "/helm-creds".to_string(),
                read_only: true,
            },
        );
        let mut containers: Vec<Container> = Vec::new();
        containers.push(
            Container {
                name: HELM_CONTAINER.to_string(),
                image: self.helm_image.clone(),
                command,
                args: with_credential_flags(helm_args, values_json.is_some()),
                volume_mounts,
            },
        );
        let mut volumes: Vec<SecretVolume> = Vec::new();
        volumes.push(SecretVolume { name: "helm-creds".to_string(), secret_name });
        let job = JobManifest {
            name: job_name,
            namespace: self.namespace.clone(),
            labels: new_managed_labels(),
            ttl_seconds_after_finished: 3600,
            backoff_limit: 0,
            pod_labels: new_managed_labels().with(RELEASE_LABEL, safe_release),
            restart_policy: "Never".to_string(),
            containers,
            volumes,
        };
        let plan = HelmJobPlan { secret, job };
        proof {
            let run = RunView {
                job_label: job_label@,
                release_name: release_name@,
                helm_args: helm_args.deep_view(),
                kubeconfig: kubeconfig@,
                values_json: values_json.deep_view(),
            };
            let want = plan_of(self@, run, uuid@);
            assert(command.deep_view() =~= seq!["helm"@]);
            assert(plan@.job.containers[0] =~= want.job.containers[0]);
            assert(plan@.job.containers =~= want.job.containers);
            assert(plan@.job.volumes =~= want.job.volumes);
            assert(plan@.job =~= want.job);
            assert(plan@.secret =~= want.secret);
        }
        plan
    }

    /// Begins a helm run under a fresh random suffix: the plan of its objects
    /// is made, and the Secret is the first to create.
    pub fn spawn_helm_job(
        &self,
        job_label: &str,
        release_name: &str,
        helm_args: Vec<String>,
        kubeconfig: &str,
        values_json: Option<&str>,
    ) -> (r: SpawnStep)
        ensures
            exists|uuid: Seq<char>|
                names::is_uuid_v4_text(uuid) && r@ == SpawnStepView::CreateSecret(
                    #[trigger] plan_of(
                        self@,
                        (RunView {
                            job_label: job_label@,
                            release_name: release_name@,
                            helm_args: helm_args.deep_view(),
                            kubeconfig: kubeconfig@,
                            values_json: values_json.deep_view(),
                        }),
                        uuid,
                    ),
                ),
    {
        let uuid = names::random_uuid_text();
        SpawnStep::CreateSecret(
            self.plan_helm_job(
                uuid.as_str(),
                job_label,
                release_name,
                helm_args,
                kubeconfig,
                values_json,
            ),
        )
    }
}

// ---- Creating the objects -------------------------------------------------
/// How far the creation of a run's objects has come, and what comes next.
pub enum SpawnStep {
    /// Create the plan's Secret.
    CreateSecret(HelmJobPlan),
    /// The Secret exists; create the Job.
    CreateJob(JobManifest),
    /// The Job's name, or why it was not created.
    Finished(Result<String, String>),
}

/// What a [`SpawnStep`] holds.
pub enum SpawnStepView {
    CreateSecret(PlanView),
    CreateJob(crate::manifest::JobView),
    Finished(Result<Seq<char>, Seq<char>>),
}

/// The texts of a result.
pub open spec fn texts_of(result: Result<String, String>) -> Result<Seq<char>, Seq<char>> {
    match result {
        Ok(text) => Ok(text@),
        Err(message) => Err(message@),
    }
}

impl View for SpawnStep {
    type V = SpawnStepView;

    open spec fn view(&self) -> SpawnStepView {
        match self {
            SpawnStep::CreateSecret(plan) => SpawnStepView::CreateSecret(plan@),
            SpawnStep::CreateJob(job) => SpawnStepView::CreateJob(job@),
            SpawnStep::Finished(result) => SpawnStepView::Finished(texts_of(*result)),
        }
    }
}

/// What follows when the API server accepted, or did not accept, the object of
/// a step. A refused object ends the run; an accepted Job ends it with the
/// Job's name.
pub open spec fn spawn_next(step: SpawnStepView, accepted: bool) -> SpawnStepView {
    match step {
        SpawnStepView::CreateSecret(plan) => if accepted {
            SpawnStepView::CreateJob(plan.job)
        } else {
            SpawnStepView::Finished(Err("failed to create Secret "@ + plan.secret.name))
        },
        SpawnStepView::CreateJob(job) => if accepted {
            SpawnStepView::Finished(Ok(job.name))
        } else {
            SpawnStepView::Finished(Err("failed to create Job "@ + job.name))
        },
        SpawnStepView::Finished(result) => SpawnStepView::Finished(result),
    }
}

impl SpawnStep {
    /// Goes on from a step once the API server has answered for its object.
    pub fn resume(self, accepted: bool) -> (r: SpawnStep)
        ensures
            r@ == spawn_next(self@, accepted),
    {
        match self {
            SpawnStep::CreateSecret(plan) => if accepted {
                SpawnStep::CreateJob(plan.job)
            } else {
                SpawnStep::Finished(
                    Err("failed to create Secret ".to_string().concat(plan.secret.name.as_str())),
                )
            },
            SpawnStep::CreateJob(job) => if accepted {
                SpawnStep::Finished(Ok(job.name))
            } else {
                SpawnStep::Finished(
                    Err("failed to create Job ".to_string().concat(job.name.as_str())),
                )
            },
            SpawnStep::Finished(result) => SpawnStep::Finished(result),
        }
    }
}

// ---- Laws -----------------------------------------------------------------
/// Both objects of a run are created in the runner's namespace and carry the
/// label by which everything created here is found again.
pub proof fn law_objects_stay_in_namespace(runner: RunnerView, run: RunView, uuid: Seq<char>)
    ensures
        plan_of(runner, run, uuid).secret.namespace == runner.namespace,
        plan_of(runner, run, uuid).job.namespace == runner.namespace,
        plan_of(runner, run, uuid).secret.labels.contains_pair(
            MANAGED_BY_LABEL@,
            MANAGED_BY_VALUE@,
        ),
        plan_of(runner, run, uuid).job.labels.contains_pair(MANAGED_BY_LABEL@, MANAGED_BY_VALUE@),
        plan_of(runner, run, uuid).job.pod_labels.contains_pair(
            MANAGED_BY_LABEL@,
            MANAGED_BY_VALUE@,
        ),
{
    reveal_strlit("app.kubernetes.io/managed-by");
    reveal_strlit("rancher-helm-mcp/release");
    assert(MANAGED_BY_LABEL@.len() != RELEASE_LABEL@.len());
}

/// The value of the release label is one that Kubernetes takes for a label,
/// whatever the release is called: empty, or at most 63 lowercase letters,
/// digits and hyphens that begin and end in a letter or a digit.
pub proof fn law_release_label_is_valid(runner: RunnerView, run: RunView, uuid: Seq<char>)
    ensures
        ({
            let labels = plan_of(runner, run, uuid).job.pod_labels;
            let value = labels[RELEASE_LABEL@];
            &&& labels.contains_key(RELEASE_LABEL@)
            &&& value.len() == 0 || names::is_dns_label(value)
        }),
{
    names::law_segment_is_valid(run.release_name);
}

/// The texts of the kubeconfig and of the values go into the data of the Secret
/// and nowhere else: runs that differ in these texts alone have the same Job,
/// and Secrets that differ in their data alone.
pub proof fn law_credentials_stay_in_the_secret(
    runner: RunnerView,
    run: RunView,
    other: RunView,
    uuid: Seq<char>,
)
    requires
        run.job_label == other.job_label,
        run.release_name == other.release_name,
        run.helm_args == other.helm_args,
        run.values_json is Some <==> other.values_json is Some,
    ensures
        ({
            let plan = plan_of(runner, run, uuid);
            let twin = plan_of(runner, other, uuid);
            &&& plan.job == twin.job
            &&& plan.secret.name == twin.secret.name
            &&& plan.secret.namespace == twin.secret.namespace
            &&& plan.secret.labels == twin.secret.labels
        }),
{
}

/// The Job reads the credentials of its own run: its only volume is filled
/// from the run's Secret, and its only container mounts that volume, without
/// the right to write.
pub proof fn law_job_mounts_its_secret(runner: RunnerView, run: RunView, uuid: Seq<char>)
    ensures
        ({
            let plan = plan_of(runner, run, uuid);
            let container = plan.job.containers[0];
            &&& plan.job.containers.len() == 1
            &&& plan.job.volumes.len() == 1
            &&& plan.job.volumes[0].secret_name == plan.secret.name
            &&& container.volume_mounts.len() == 1
            &&& container.volume_mounts[0].name == plan.job.volumes[0].name
            &&& container.volume_mounts[0].read_only
        }),
{
}

/// The Job runs helm, and nothing else, from the runner's image. It is tried
/// once: a run that failed is not repeated. An hour after its end it goes.
pub proof fn law_job_runs_helm_once(runner: RunnerView, run: RunView, uuid: Seq<char>)
    ensures
        ({
            let job = plan_of(runner, run, uuid).job;
            &&& job.containers.len() == 1
            &&& job.containers[0].image == runner.helm_image
            &&& job.containers[0].command == seq!["helm"@]
            &&& job.backoff_limit == 0
            &&& job.restart_policy == "Never"@
            &&& job.ttl_seconds_after_finished == 60 * 60
        }),
{
}

/// `flag` stands in `args`, directly followed by `value`.
pub open spec fn has_flag(args: Seq<Seq<char>>, flag: Seq<char>, value: Seq<char>) -> bool {
    exists|i: int|
        0 <= i && i + 1 < args.len() && #[trigger] args[i] == flag && args[i + 1] == value
}

/// The flags name files that the mounted Secret holds: `--kubeconfig` always,
/// and `--values` where there are values. Each path is the mount path, a slash
/// and a key of the Secret, whose data is the text that was handed in. The
/// arguments handed in come first and stay as they are.
pub proof fn law_flags_name_mounted_files(runner: RunnerView, run: RunView, uuid: Seq<char>)
    ensures
        ({
            let plan = plan_of(runner, run, uuid);
            let args = plan.job.containers[0].args;
            let mount = plan.job.containers[0].volume_mounts[0].mount_path;
            &&& run.helm_args.is_prefix_of(args)
            &&& has_flag(args, "--kubeconfig"@, mount + "/"@ + "kubeconfig"@)
            &&& plan.secret.data.contains_pair(
                "kubeconfig"@,
                vstd::utf8::encode_utf8(run.kubeconfig),
            )
            &&& run.values_json matches Some(values) ==> {
                &&& has_flag(args, "--values"@, mount + "/"@ + "values.json"@)
                &&& plan.secret.data.contains_pair(
                    "values.json"@,
                    vstd::utf8::encode_utf8(values),
                )
            }
            &&& run.values_json is None ==> {
                &&& args == run.helm_args + seq!["--kubeconfig"@, mount + "/"@ + "kubeconfig"@]
                &&& !plan.secret.data.contains_key("values.json"@)
            }
        }),
{
    reveal_strlit("/helm-creds");
    reveal_strlit("/");
    reveal_strlit("kubeconfig");
    reveal_strlit("values.json");
    reveal_strlit("/helm-creds/kubeconfig");
    reveal_strlit("/helm-creds/values.json");
    let plan = plan_of(runner, run, uuid);
    let args = plan.job.containers[0].args;
    let n = run.helm_args.len() as int;
    assert("/helm-creds"@ + "/"@ + "kubeconfig"@ =~= "/helm-creds/kubeconfig"@);
    assert("/helm-creds"@ + "/"@ + "values.json"@ =~= "/helm-creds/values.json"@);
    assert("kubeconfig"@.len() != "values.json"@.len());
    assert(args.subrange(0, n) =~= run.helm_args);
    assert(args[n] == "--kubeconfig"@);
    assert(args[n + 1] == "/helm-creds/kubeconfig"@);
    if run.values_json is Some {
        assert(args[n + 2] == "--values"@);
        assert(args[n + 3] == "/helm-creds/values.json"@);
    }
}

/// The Job is asked for only after the Secret was accepted, and a run ends
/// well exactly where both objects were accepted; then it gives the Job's
/// name. A run that is over stays over.
pub proof fn law_secret_comes_before_job(plan: PlanView, secret: bool, job: bool)
    ensures
        ({
            let start = SpawnStepView::CreateSecret(plan);
            let second = spawn_next(start, secret);
            let last = spawn_next(second, job);
            &&& second is CreateJob <==> secret
            &&& secret ==> second == SpawnStepView::CreateJob(plan.job)
            &&& secret && job ==> last == SpawnStepView::Finished(Ok(plan.job.name))
            &&& !secret ==> last == SpawnStepView::Finished(
                Err("failed to create Secret "@ + plan.secret.name),
            )
            &&& secret && !job ==> last == SpawnStepView::Finished(
                Err("failed to create Job "@ + plan.job.name),
            )
            &&& spawn_next(last, job) == last
        }),
{
}

/// The Secret of a run holds the kubeconfig and, where there are some, the
/// values, each as UTF-8 under its key, and nothing else. It carries one label.
pub proof fn law_secret_holds_the_credentials_alone(
    runner: RunnerView,
    run: RunView,
    uuid: Seq<char>,
    plan: HelmJobPlan,
)
    requires
        plan@ == plan_of(runner, run, uuid),
    ensures
        plan.secret.name@ == plan.job.name@ + "-creds"@,
        plan.secret.namespace@ == runner.namespace,
        plan.secret.labels@ == map!["app.kubernetes.io/managed-by"@ => "rancher-helm-mcp"@],
        plan.secret.data@["kubeconfig"@] == vstd::utf8::encode_utf8(run.kubeconfig),
        match run.values_json {
            Some(values) => plan.secret.data@["values.json"@] == vstd::utf8::encode_utf8(values),
            None => true,
        },
        forall|key: Seq<char>| #[trigger]
            plan.secret.data@.contains_key(key) <==> (key == "kubeconfig"@ || (key
                == "values.json"@ && run.values_json is Some)),
{
    reveal_strlit("kubeconfig");
    reveal_strlit("values.json");
    assert("kubeconfig"@.len() != "values.json"@.len());
    assert(plan@.secret.labels =~= map!["app.kubernetes.io/managed-by"@ => "rancher-helm-mcp"@]);
}

/// The Job of a run has one container, which runs helm from the runner's image
/// with the arguments that were handed in and the flags for the mounted files
/// behind them. Its only volume is the run's Secret, mounted for reading. It is
/// tried once and goes an hour after its end. Its pods carry the release.
pub proof fn law_job_runs_helm_as_asked(
    runner: RunnerView,
    run: RunView,
    uuid: Seq<char>,
    plan: HelmJobPlan,
)
    requires
        plan@ == plan_of(runner, run, uuid),
    ensures
        ({
            let job = plan.job;
            let n = run.helm_args.len() as int;
            let container = job.containers@[0];
            let args = container.args@;
            &&& job.name@ == names::job_name_of(run.job_label, run.release_name, uuid)
            &&& job.namespace@ == runner.namespace
            &&& job.labels@ == map!["app.kubernetes.io/managed-by"@ => "rancher-helm-mcp"@]
            &&& job.pod_labels@ == map![
                "app.kubernetes.io/managed-by"@ => "rancher-helm-mcp"@,
                "rancher-helm-mcp/release"@ => names::sanitized(run.release_name),
            ]
            &&& job.ttl_seconds_after_finished == 3600
            &&& job.backoff_limit == 0
            &&& job.restart_policy@ == "Never"@
            &&& job.containers@.len() == 1
            &&& container.name@ == "helm"@
            &&& container.image@ == runner.helm_image
            &&& container.command@.len() == 1
            &&& container.command@[0]@ == "helm"@
            &&& forall|i: int| 0 <= i < n ==> (#[trigger] args[i])@ == run.helm_args[i]
            &&& args[n]@ == "--kubeconfig"@
            &&& args[n + 1]@ == "/helm-creds/kubeconfig"@
            &&& match run.values_json {
                Some(_) => {
                    &&& args.len() == n + 4
                    &&& args[n + 2]@ == "--values"@
                    &&& args[n + 3]@ == "/helm-creds/values.json"@
                },
                None => args.len() == n + 2,
            }
            &&& container.volume_mounts@.len() == 1
            &&& container.volume_mounts@[0].name@ == "helm-creds"@
            &&& container.volume_mounts@[0].mount_path@ == "/helm-creds"@
            &&& container.volume_mounts@[0].read_only
            &&& job.volumes@.len() == 1
            &&& job.volumes@[0].name@ == "helm-creds"@
            &&& job.volumes@[0].secret_name@ == plan.secret.name@
        }),
{
    let want = plan_of(runner, run, uuid).job;
    let job = plan.job;
    let n = run.helm_args.len() as int;
    assert(job@ == want);
    assert(job.containers@.len() == want.containers.len());
    assert(job.volumes@.len() == want.volumes.len());
    let container = job.containers@[0];
    assert(container.deep_view() == want.containers[0]);
    assert(job.volumes@[0].deep_view() == want.volumes[0]);
    assert(container.command@.len() == container.command.deep_view().len());
    assert(container.command.deep_view()[0] == container.command@[0]@);
    assert(container.volume_mounts@.len() == container.volume_mounts.deep_view().len());
    assert(container.volume_mounts.deep_view()[0] == container.volume_mounts@[0].deep_view());
    let args = container.args;
    assert(args@.len() == args.deep_view().len());
    assert forall|i: int| 0 <= i < args@.len() implies (#[trigger] args@[i])@
        == want.containers[0].args[i] by {
        assert(args.deep_view()[i] == args@[i]@);
    }
    assert(want.containers[0].args[n] == "--kubeconfig"@);
    assert(job.labels@ =~= map!["app.kubernetes.io/managed-by"@ => "rancher-helm-mcp"@]);
    assert(job.pod_labels@ =~= map![
        "app.kubernetes.io/managed-by"@ => "rancher-helm-mcp"@,
        "rancher-helm-mcp/release"@ => names::sanitized(run.release_name),
    ]);
}

} // verus!
