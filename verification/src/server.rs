//! The tools: what each of them asks of Rancher and of Kubernetes, in which
//! order, and what it answers.
//!
//! A tool call is a sequence of requests. Each step either asks for something
//! and waits for the reply, or is the answer.
use vstd::prelude::*;
use vstd::string::StringExecFns;

use crate::clusters;
use crate::helm;
use crate::helm::{GetJobStatusInput, InstallChartInput, ListClustersInput, ListReleasesInput};
use crate::job_output;
use crate::job_output::JobOutput;
use crate::k8s;
use crate::k8s::{HelmJobRequest, K8sJobRunner};
use crate::rancher;
use crate::rancher::{Cluster, RancherClient};
use crate::text;

verus! {

// ---- Answers --------------------------------------------------------------
/// The answer of an install whose Job was created.
pub open spec fn install_answer(job_name: Seq<char>, namespace: Seq<char>) -> Seq<char> {
    "Helm install job created.\nJob:       "@ + job_name + "\nNamespace: "@ + namespace
        + "\n\nUse get_job_status(job_name=\""@ + job_name
        + "\") to check progress and retrieve logs."@
}

/// The answer about a Job.
pub open spec fn status_answer(
    job_name: Seq<char>,
    output: job_output::JobOutputView,
) -> Seq<char> {
    let head = "Job:    "@ + job_name + "\nStatus: "@ + output.phase + "\n"@;
    match output.logs {
        Some(logs) => head + "\nLogs:\n"@ + logs,
        None => head,
    }
}

/// The answer of a run that listed releases: the logs are the list.
pub open spec fn releases_answer(output: job_output::JobOutputView) -> Result<
    Seq<char>,
    Seq<char>,
> {
    match (output.succeeded, output.logs) {
        (true, Some(logs)) => Ok(logs),
        (true, None) => Ok("[]"@),
        (false, Some(logs)) => Err("helm list failed:\n"@ + logs),
        (false, None) => Err("helm list failed:\n"@ + "(no logs)"@),
    }
}

/// Writes the answer of an install.
pub fn format_install(job_name: &str, namespace: &str) -> (r: String)
    ensures
        r@ == install_answer(job_name@, namespace@),
{
    "Helm install job created.\nJob:       ".to_string().concat(job_name).concat(
        "\nNamespace: ",
    ).concat(namespace).concat("\n\nUse get_job_status(job_name=\"").concat(job_name).concat(
        "\") to check progress and retrieve logs.",
    )
}

/// Writes the answer about a Job.
pub fn format_status(job_name: &str, output: &JobOutput) -> (r: String)
    ensures
        r@ == status_answer(job_name@, output@),
{
    let head = "Job:    ".to_string().concat(job_name).concat("\nStatus: ").concat(
        output.phase,
    ).concat("\n");
    match &output.logs {
        Some(logs) => head.concat("\nLogs:\n").concat(logs.as_str()),
        None => head,
    }
}

/// Reads the list of releases off the output of its run.
pub fn releases_of(output: JobOutput) -> (r: Result<String, String>)
    ensures
        k8s::texts_of(r) == releases_answer(output@),
{
    if output.succeeded {
        match output.logs {
            Some(logs) => Ok(logs),
            None => Ok("[]".to_string()),
        }
    } else {
        let logs = match output.logs {
            Some(logs) => logs,
            None => "(no logs)".to_string(),
        };
        Err("helm list failed:\n".to_string().concat(logs.as_str()))
    }
}

// ---- Tool calls -----------------------------------------------------------
/// What a tool call asks for.
pub enum ToolRequest {
    /// The clusters that Rancher manages.
    ListClusters,
    /// A kubeconfig of a cluster.
    GenerateKubeconfig { cluster_id: String },
    /// A Job for a helm run.
    SpawnHelmJob(HelmJobRequest),
    /// The output of a Job as it is now.
    GetJobOutput { job_name: String },
    /// The output of a Job once it has finished.
    WaitForJob { job_name: String, timeout_nanos: u128 },
}

/// What a [`ToolRequest`] holds.
pub enum ToolRequestView {
    ListClusters,
    GenerateKubeconfig { cluster_id: Seq<char> },
    SpawnHelmJob(k8s::RunView),
    GetJobOutput { job_name: Seq<char> },
    WaitForJob { job_name: Seq<char>, timeout_nanos: nat },
}

impl View for ToolRequest {
    type V = ToolRequestView;

    open spec fn view(&self) -> ToolRequestView {
        match self {
            ToolRequest::ListClusters => ToolRequestView::ListClusters,
            ToolRequest::GenerateKubeconfig { cluster_id } => ToolRequestView::GenerateKubeconfig {
                cluster_id: cluster_id@,
            },
            ToolRequest::SpawnHelmJob(run) => ToolRequestView::SpawnHelmJob(run@),
            ToolRequest::GetJobOutput { job_name } => ToolRequestView::GetJobOutput {
                job_name: job_name@,
            },
            ToolRequest::WaitForJob { job_name, timeout_nanos } => ToolRequestView::WaitForJob {
                job_name: job_name@,
                timeout_nanos: *timeout_nanos as nat,
            },
        }
    }
}

/// The reply to a request: what was asked for, or the message of the failure.
pub enum ToolReply {
    Clusters(Result<Vec<Cluster>, String>),
    Kubeconfig(Result<String, String>),
    Spawned(Result<String, String>),
    Output(Result<JobOutput, String>),
}

/// What a [`ToolReply`] holds.
pub enum ToolReplyView {
    Clusters(Result<Seq<rancher::ClusterView>, Seq<char>>),
    Kubeconfig(Result<Seq<char>, Seq<char>>),
    Spawned(Result<Seq<char>, Seq<char>>),
    Output(Result<job_output::JobOutputView, Seq<char>>),
}

impl View for ToolReply {
    type V = ToolReplyView;

    open spec fn view(&self) -> ToolReplyView {
        match self {
            ToolReply::Clusters(Ok(clusters)) => ToolReplyView::Clusters(Ok(clusters.deep_view())),
            ToolReply::Clusters(Err(message)) => ToolReplyView::Clusters(Err(message@)),
            ToolReply::Kubeconfig(result) => ToolReplyView::Kubeconfig(k8s::texts_of(*result)),
            ToolReply::Spawned(result) => ToolReplyView::Spawned(k8s::texts_of(*result)),
            ToolReply::Output(result) => ToolReplyView::Output(job_output::output_of(*result)),
        }
    }
}

/// What a tool call waits for, and what it still needs to know by then.
pub enum ToolState {
    /// `list_clusters` waits for the clusters.
    ListingClusters,
    /// `install_helm_chart` waits for the clusters, to find the one named.
    ResolvingForInstall(InstallChartInput),
    /// `install_helm_chart` waits for the kubeconfig.
    AuthorizingInstall(InstallChartInput),
    /// `install_helm_chart` waits for its Job to be created.
    SpawningInstall,
    /// `get_job_status` waits for the output of the Job.
    CheckingJob { job_name: String },
    /// `list_helm_releases` waits for the clusters, to find the one named.
    ResolvingForReleases(ListReleasesInput),
    /// `list_helm_releases` waits for the kubeconfig.
    AuthorizingReleases { input: ListReleasesInput, cluster_id: String },
    /// `list_helm_releases` waits for its Job to be created.
    SpawningReleases,
    /// `list_helm_releases` waits for its Job to finish.
    WaitingForReleases,
}

/// What a [`ToolState`] holds.
pub enum ToolStateView {
    ListingClusters,
    ResolvingForInstall(helm::InstallView),
    AuthorizingInstall(helm::InstallView),
    SpawningInstall,
    CheckingJob { job_name: Seq<char> },
    ResolvingForReleases(helm::ReleasesView),
    AuthorizingReleases { input: helm::ReleasesView, cluster_id: Seq<char> },
    SpawningReleases,
    WaitingForReleases,
}

impl View for ToolState {
    type V = ToolStateView;

    open spec fn view(&self) -> ToolStateView {
        match self {
            ToolState::ListingClusters => ToolStateView::ListingClusters,
            ToolState::ResolvingForInstall(input) => ToolStateView::ResolvingForInstall(input@),
            ToolState::AuthorizingInstall(input) => ToolStateView::AuthorizingInstall(input@),
            ToolState::SpawningInstall => ToolStateView::SpawningInstall,
            ToolState::CheckingJob { job_name } => ToolStateView::CheckingJob {
                job_name: job_name@,
            },
            ToolState::ResolvingForReleases(input) => ToolStateView::ResolvingForReleases(input@),
            ToolState::AuthorizingReleases { input, cluster_id } => {
                ToolStateView::AuthorizingReleases { input: input@, cluster_id: cluster_id@ }
            },
            ToolState::SpawningReleases => ToolStateView::SpawningReleases,
            ToolState::WaitingForReleases => ToolStateView::WaitingForReleases,
        }
    }
}

/// A tool call that waits for a reply.
pub struct ToolCall {
    pub request: ToolRequest,
    pub state: ToolState,
}

/// What a [`ToolCall`] holds.
pub struct ToolCallView {
    pub request: ToolRequestView,
    pub state: ToolStateView,
}

impl View for ToolCall {
    type V = ToolCallView;

    open spec fn view(&self) -> ToolCallView {
        ToolCallView { request: self.request@, state: self.state@ }
    }
}

/// Why a tool failed.
#[derive(Debug)]
pub struct ToolError {
    pub message: String,
}

/// Where a tool call has come to: a request, or the answer.
pub enum ToolStep {
    Ask(ToolCall),
    Done(Result<String, ToolError>),
}

/// What a [`ToolStep`] holds.
pub enum ToolStepView {
    Ask(ToolCallView),
    Done(Result<Seq<char>, Seq<char>>),
}

impl View for ToolStep {
    type V = ToolStepView;

    open spec fn view(&self) -> ToolStepView {
        match self {
            ToolStep::Ask(call) => ToolStepView::Ask(call@),
            ToolStep::Done(Ok(answer)) => ToolStepView::Done(Ok(answer@)),
            ToolStep::Done(Err(error)) => ToolStepView::Done(Err(error.message@)),
        }
    }
}

/// The step that asks for something.
pub open spec fn ask(request: ToolRequestView, state: ToolStateView) -> ToolStepView {
    ToolStepView::Ask(ToolCallView { request, state })
}

/// The longest wait for a list of releases.
pub const RELEASES_TIMEOUT_SECONDS: u128 = 60;

/// The step of an install once its cluster is known.
pub open spec fn authorize_install(input: helm::InstallView, cluster_id: Seq<char>) -> ToolStepView {
    ask(
        ToolRequestView::GenerateKubeconfig { cluster_id },
        ToolStateView::AuthorizingInstall(input),
    )
}

/// The step of a list of releases once its cluster is known.
pub open spec fn authorize_releases(input: helm::ReleasesView, cluster_id: Seq<char>) -> ToolStepView {
    ask(
        ToolRequestView::GenerateKubeconfig { cluster_id },
        ToolStateView::AuthorizingReleases { input, cluster_id },
    )
}

/// The first step of an install: an ID goes straight on, a name is looked up.
pub open spec fn install_start(input: helm::InstallView) -> ToolStepView {
    if clusters::is_cluster_id(input.cluster) {
        authorize_install(input, input.cluster)
    } else {
        ask(ToolRequestView::ListClusters, ToolStateView::ResolvingForInstall(input))
    }
}

/// The first step of a list of releases: an ID goes straight on, a name is
/// looked up.
pub open spec fn releases_start(input: helm::ReleasesView) -> ToolStepView {
    if clusters::is_cluster_id(input.cluster) {
        authorize_releases(input, input.cluster)
    } else {
        ask(ToolRequestView::ListClusters, ToolStateView::ResolvingForReleases(input))
    }
}

/// The message of a failure, wherever the reply is one.
pub open spec fn failure(reply: ToolReplyView) -> Option<Seq<char>> {
    match reply {
        ToolReplyView::Clusters(Err(message)) => Some(message),
        ToolReplyView::Kubeconfig(Err(message)) => Some(message),
        ToolReplyView::Spawned(Err(message)) => Some(message),
        ToolReplyView::Output(Err(message)) => Some(message),
        _ => None,
    }
}

/// The reply is one to what the state waits for.
pub open spec fn answers(state: ToolStateView, reply: ToolReplyView) -> bool {
    match state {
        ToolStateView::ListingClusters => reply is Clusters,
        ToolStateView::ResolvingForInstall(_) => reply is Clusters,
        ToolStateView::AuthorizingInstall(_) => reply is Kubeconfig,
        ToolStateView::SpawningInstall => reply is Spawned,
        ToolStateView::CheckingJob { .. } => reply is Output,
        ToolStateView::ResolvingForReleases(_) => reply is Clusters,
        ToolStateView::AuthorizingReleases { .. } => reply is Kubeconfig,
        ToolStateView::SpawningReleases => reply is Spawned,
        ToolStateView::WaitingForReleases => reply is Output,
    }
}

/// What follows once a call has what it waited for. `namespace` is that of the
/// Jobs.
pub open spec fn granted(
    namespace: Seq<char>,
    state: ToolStateView,
    reply: ToolReplyView,
) -> ToolStepView {
    match state {
        ToolStateView::ListingClusters => ToolStepView::Done(
            Ok(clusters::clusters_text(reply->Clusters_0->Ok_0)),
        ),
        ToolStateView::ResolvingForInstall(input) => match clusters::looked_up(
            reply->Clusters_0->Ok_0,
            input.cluster,
        ) {
            Ok(cluster_id) => authorize_install(input, cluster_id),
            Err(message) => ToolStepView::Done(Err(message)),
        },
        ToolStateView::AuthorizingInstall(input) => ask(
            ToolRequestView::SpawnHelmJob(
                helm::install_run(input, reply->Kubeconfig_0->Ok_0, helm::values_text(input.values)),
            ),
            ToolStateView::SpawningInstall,
        ),
        ToolStateView::SpawningInstall => ToolStepView::Done(
            Ok(install_answer(reply->Spawned_0->Ok_0, namespace)),
        ),
        ToolStateView::CheckingJob { job_name } => ToolStepView::Done(
            Ok(status_answer(job_name, reply->Output_0->Ok_0)),
        ),
        ToolStateView::ResolvingForReleases(input) => match clusters::looked_up(
            reply->Clusters_0->Ok_0,
            input.cluster,
        ) {
            Ok(cluster_id) => authorize_releases(input, cluster_id),
            Err(message) => ToolStepView::Done(Err(message)),
        },
        ToolStateView::AuthorizingReleases { input, cluster_id } => ask(
            ToolRequestView::SpawnHelmJob(
                helm::list_run(input, cluster_id, reply->Kubeconfig_0->Ok_0),
            ),
            ToolStateView::SpawningReleases,
        ),
        ToolStateView::SpawningReleases => ask(
            ToolRequestView::WaitForJob {
                job_name: reply->Spawned_0->Ok_0,
                timeout_nanos: (RELEASES_TIMEOUT_SECONDS * job_output::NANOS_PER_SECOND) as nat,
            },
            ToolStateView::WaitingForReleases,
        ),
        ToolStateView::WaitingForReleases => ToolStepView::Done(
            releases_answer(reply->Output_0->Ok_0),
        ),
    }
}

/// What follows on a reply. A reply to something else changes nothing, and a
/// failure ends the call with its message.
pub open spec fn tool_next(
    namespace: Seq<char>,
    call: ToolCallView,
    reply: ToolReplyView,
) -> ToolStepView {
    if !answers(call.state, reply) {
        ToolStepView::Ask(call)
    } else {
        match failure(reply) {
            Some(message) => ToolStepView::Done(Err(message)),
            None => granted(namespace, call.state, reply),
        }
    }
}

/// The step that ends a call with a failure.
fn failed(message: String) -> (r: ToolStep)
    ensures
        r@ == ToolStepView::Done(Err(message@)),
{
    ToolStep::Done(Err(ToolError { message }))
}

/// The step of an install once its cluster is known.
fn ask_for_install(input: InstallChartInput, cluster_id: String) -> (r: ToolStep)
    ensures
        r@ == authorize_install(input@, cluster_id@),
{
    ToolStep::Ask(
        ToolCall {
            request: ToolRequest::GenerateKubeconfig { cluster_id },
            state: ToolState::AuthorizingInstall(input),
        },
    )
}

/// The step of a list of releases once its cluster is known.
fn ask_for_releases(input: ListReleasesInput, cluster_id: String) -> (r: ToolStep)
    ensures
        r@ == authorize_releases(input@, cluster_id@),
{
    ToolStep::Ask(
        ToolCall {
            request: ToolRequest::GenerateKubeconfig { cluster_id: cluster_id.clone() },
            state: ToolState::AuthorizingReleases { input, cluster_id },
        },
    )
}

/// The server: the tools, for one Rancher and the Jobs of one namespace.
pub struct HelmMcpServer {
    rancher: RancherClient,
    k8s: K8sJobRunner,
}

/// What a [`HelmMcpServer`] holds.
pub struct ServerView {
    pub rancher: rancher::RancherClientView,
    pub k8s: k8s::RunnerView,
}

impl View for HelmMcpServer {
    type V = ServerView;

    closed spec fn view(&self) -> ServerView {
        ServerView { rancher: self.rancher@, k8s: self.k8s@ }
    }
}

impl HelmMcpServer {
    /// A server for that Rancher and those Jobs.
    pub fn new(rancher: RancherClient, k8s: K8sJobRunner) -> (r: Self)
        ensures
            r@ == (ServerView { rancher: rancher@, k8s: k8s@ }),
    {
        HelmMcpServer { rancher, k8s }
    }

    /// The Rancher that the tools ask.
    pub fn rancher(&self) -> (r: &RancherClient)
        ensures
            r@ == self@.rancher,
    {
        &self.rancher
    }

    /// The runner of the tools' Jobs.
    pub fn k8s(&self) -> (r: &K8sJobRunner)
        ensures
            r@ == self@.k8s,
    {
        &self.k8s
    }

    /// Begins to list the clusters.
    pub fn list_clusters(&self, input: ListClustersInput) -> (r: ToolStep)
        ensures
            r@ == ask(ToolRequestView::ListClusters, ToolStateView::ListingClusters),
    {
        ToolStep::Ask(
            ToolCall { request: ToolRequest::ListClusters, state: ToolState::ListingClusters },
        )
    }

    /// Begins to install or upgrade a chart. The call answers with the name of
    /// the Job as soon as that is created.
    pub fn install_helm_chart(&self, input: InstallChartInput) -> (r: ToolStep)
        ensures
            r@ == install_start(input@),
    {
        if clusters::check_cluster_id(input.cluster.as_str()) {
            let cluster_id = input.cluster.clone();
            ask_for_install(input, cluster_id)
        } else {
            ToolStep::Ask(
                ToolCall {
                    request: ToolRequest::ListClusters,
                    state: ToolState::ResolvingForInstall(input),
                },
            )
        }
    }

    /// Begins to check the phase of a Job.
    pub fn get_job_status(&self, input: GetJobStatusInput) -> (r: ToolStep)
        ensures
            r@ == ask(
                ToolRequestView::GetJobOutput { job_name: input.job_name@ },
                ToolStateView::CheckingJob { job_name: input.job_name@ },
            ),
    {
        ToolStep::Ask(
            ToolCall {
                request: ToolRequest::GetJobOutput { job_name: input.job_name.clone() },
                state: ToolState::CheckingJob { job_name: input.job_name },
            },
        )
    }

    /// Begins to list the releases on a cluster.
    pub fn list_helm_releases(&self, input: ListReleasesInput) -> (r: ToolStep)
        ensures
            r@ == releases_start(input@),
    {
        if clusters::check_cluster_id(input.cluster.as_str()) {
            let cluster_id = input.cluster.clone();
            ask_for_releases(input, cluster_id)
        } else {
            ToolStep::Ask(
                ToolCall {
                    request: ToolRequest::ListClusters,
                    state: ToolState::ResolvingForReleases(input),
                },
            )
        }
    }

    /// Goes on with a call once the reply to its request is there.
    pub fn resume(&self, call: ToolCall, reply: ToolReply) -> (r: ToolStep)
        ensures
            r@ == tool_next(self@.k8s.namespace, call@, reply@),
    {
        match (call.state, reply) {
            (ToolState::ListingClusters, ToolReply::Clusters(result)) => match result {
                Ok(found) => ToolStep::Done(Ok(clusters::format_clusters(&found))),
                Err(message) => failed(message),
            },
            (ToolState::ResolvingForInstall(input), ToolReply::Clusters(result)) => match result {
                Ok(found) => match clusters::look_up_cluster(&found, input.cluster.as_str()) {
                    Ok(cluster_id) => ask_for_install(input, cluster_id),
                    Err(message) => failed(message),
                },
                Err(message) => failed(message),
            },
            (ToolState::AuthorizingInstall(input), ToolReply::Kubeconfig(result)) => match result {
                Ok(kubeconfig) => {
                    let values = helm::values_json(&input.values);
                    let run = helm::install_request(&input, kubeconfig, values);
                    ToolStep::Ask(
                        ToolCall {
                            request: ToolRequest::SpawnHelmJob(run),
                            state: ToolState::SpawningInstall,
                        },
                    )
                },
                Err(message) => failed(message),
            },
            (ToolState::SpawningInstall, ToolReply::Spawned(result)) => match result {
                Ok(job_name) => ToolStep::Done(
                    Ok(format_install(job_name.as_str(), self.k8s.namespace())),
                ),
                Err(message) => failed(message),
            },
            (ToolState::CheckingJob { job_name }, ToolReply::Output(result)) => match result {
                Ok(output) => ToolStep::Done(Ok(format_status(job_name.as_str(), &output))),
                Err(message) => failed(message),
            },
            (ToolState::ResolvingForReleases(input), ToolReply::Clusters(result)) => match result {
                Ok(found) => match clusters::look_up_cluster(&found, input.cluster.as_str()) {
                    Ok(cluster_id) => ask_for_releases(input, cluster_id),
                    Err(message) => failed(message),
                },
                Err(message) => failed(message),
            },
            (
                ToolState::AuthorizingReleases { input, cluster_id },
                ToolReply::Kubeconfig(result),
            ) => match result {
                Ok(kubeconfig) => {
                    let run = helm::list_request(&input, cluster_id, kubeconfig);
                    ToolStep::Ask(
                        ToolCall {
                            request: ToolRequest::SpawnHelmJob(run),
                            state: ToolState::SpawningReleases,
                        },
                    )
                },
                Err(message) => failed(message),
            },
            (ToolState::SpawningReleases, ToolReply::Spawned(result)) => match result {
                Ok(job_name) => ToolStep::Ask(
                    ToolCall {
                        request: ToolRequest::WaitForJob {
                            job_name,
                            timeout_nanos: RELEASES_TIMEOUT_SECONDS * job_output::NANOS_PER_SECOND,
                        },
                        state: ToolState::WaitingForReleases,
                    },
                ),
                Err(message) => failed(message),
            },
            (ToolState::WaitingForReleases, ToolReply::Output(result)) => match result {
                Ok(output) => match releases_of(output) {
                    Ok(answer) => ToolStep::Done(Ok(answer)),
                    Err(message) => failed(message),
                },
                Err(message) => failed(message),
            },
            (state, _) => ToolStep::Ask(ToolCall { request: call.request, state }),
        }
    }
}

// ---- Laws -----------------------------------------------------------------
/// Where a call has come to after all the replies.
pub open spec fn tool_run(
    namespace: Seq<char>,
    step: ToolStepView,
    replies: Seq<ToolReplyView>,
) -> ToolStepView
    decreases replies.len(),
{
    if step is Ask && replies.len() > 0 {
        tool_run(namespace, tool_next(namespace, step->Ask_0, replies.first()), replies.drop_first())
    } else {
        step
    }
}

/// One reply moves a waiting call by one step.
proof fn lemma_tool_run_step(
    namespace: Seq<char>,
    call: ToolCallView,
    replies: Seq<ToolReplyView>,
)
    requires
        replies.len() > 0,
    ensures
        tool_run(namespace, ToolStepView::Ask(call), replies) == tool_run(
            namespace,
            tool_next(namespace, call, replies[0]),
            replies.skip(1),
        ),
{
    assert(replies.drop_first() =~= replies.skip(1));
}

/// The last reply moves a waiting call to where it ends.
proof fn lemma_tool_run_last(namespace: Seq<char>, call: ToolCallView, reply: ToolReplyView)
    ensures
        tool_run(namespace, ToolStepView::Ask(call), seq![reply]) == tool_next(
            namespace,
            call,
            reply,
        ),
{
    lemma_tool_run_step(namespace, call, seq![reply]);
}

/// Listing the clusters takes one request and answers with the list.
pub proof fn law_list_clusters_run(
    namespace: Seq<char>,
    found: Seq<rancher::ClusterView>,
)
    ensures
        tool_run(
            namespace,
            ask(ToolRequestView::ListClusters, ToolStateView::ListingClusters),
            seq![ToolReplyView::Clusters(Ok(found))],
        ) == ToolStepView::Done(Ok(clusters::clusters_text(found))),
{
    lemma_tool_run_last(
        namespace,
        ToolCallView {
            request: ToolRequestView::ListClusters,
            state: ToolStateView::ListingClusters,
        },
        ToolReplyView::Clusters(Ok(found)),
    );
}

/// An install on a cluster whose ID is known asks for a kubeconfig of that very
/// ID, then for a Job that runs helm with that kubeconfig, and answers with the
/// name of the Job as soon as that is created; it does not wait for its end.
pub proof fn law_install_run(
    namespace: Seq<char>,
    input: helm::InstallView,
    cluster_id: Seq<char>,
    kubeconfig: Seq<char>,
    job_name: Seq<char>,
)
    ensures
        ({
            let a = ToolReplyView::Kubeconfig(Ok(kubeconfig));
            let b = ToolReplyView::Spawned(Ok(job_name));
            let start = authorize_install(input, cluster_id);
            let second = tool_run(namespace, start, seq![a]);
            let last = tool_run(namespace, start, seq![a, b]);
            &&& start is Ask && start->Ask_0.request == ToolRequestView::GenerateKubeconfig {
                cluster_id,
            }
            &&& second is Ask && second->Ask_0.request == ToolRequestView::SpawnHelmJob(
                helm::install_run(input, kubeconfig, helm::values_text(input.values)),
            )
            &&& last == ToolStepView::Done(Ok(install_answer(job_name, namespace)))
        }),
{
    let a = ToolReplyView::Kubeconfig(Ok(kubeconfig));
    let b = ToolReplyView::Spawned(Ok(job_name));
    let start = authorize_install(input, cluster_id);
    lemma_tool_run_last(namespace, start->Ask_0, a);
    lemma_tool_run_step(namespace, start->Ask_0, seq![a, b]);
    assert(seq![a, b].skip(1) =~= seq![b]);
    lemma_tool_run_last(namespace, tool_next(namespace, start->Ask_0, a)->Ask_0, b);
}

/// An install takes a cluster's ID as it is, without asking for the clusters.
/// A name is looked up among the clusters first: from there on the call is the
/// install on the cluster that has the name, and it fails where none has it.
pub proof fn law_install_resolves_cluster(
    namespace: Seq<char>,
    input: helm::InstallView,
    found: Seq<rancher::ClusterView>,
    replies: Seq<ToolReplyView>,
)
    ensures
        clusters::is_cluster_id(input.cluster) ==> install_start(input) == authorize_install(
            input,
            input.cluster,
        ),
        !clusters::is_cluster_id(input.cluster) ==> {
            &&& install_start(input) is Ask
            &&& install_start(input)->Ask_0.request == ToolRequestView::ListClusters
            &&& tool_run(
                namespace,
                install_start(input),
                seq![ToolReplyView::Clusters(Ok(found))] + replies,
            ) == (match clusters::first_named(found, input.cluster) {
                Some(id) => tool_run(namespace, authorize_install(input, id), replies),
                None => ToolStepView::Done(Err(clusters::unknown_cluster(input.cluster))),
            })
        },
{
    let all = seq![ToolReplyView::Clusters(Ok(found))] + replies;
    lemma_tool_run_step(namespace, install_start(input)->Ask_0, all);
    assert(all.skip(1) =~= replies);
}

/// Checking a Job takes one request and answers with the phase, and with the
/// logs where there are some.
pub proof fn law_get_job_status_run(
    namespace: Seq<char>,
    job_name: Seq<char>,
    output: job_output::JobOutputView,
)
    ensures
        ({
            let answer = status_answer(job_name, output);
            &&& tool_run(
                namespace,
                ask(
                    ToolRequestView::GetJobOutput { job_name },
                    ToolStateView::CheckingJob { job_name },
                ),
                seq![ToolReplyView::Output(Ok(output))],
            ) == ToolStepView::Done(Ok(answer))
            &&& text::contains_text(answer, job_name)
            &&& text::contains_text(answer, output.phase)
            &&& output.logs matches Some(logs) ==> text::contains_text(answer, logs)
        }),
{
    lemma_tool_run_last(
        namespace,
        ToolCallView {
            request: ToolRequestView::GetJobOutput { job_name },
            state: ToolStateView::CheckingJob { job_name },
        },
        ToolReplyView::Output(Ok(output)),
    );
    let answer = status_answer(job_name, output);
    let a = "Job:    "@;
    let b = a + job_name + "\nStatus: "@;
    let tail = match output.logs {
        Some(logs) => "\nLogs:\n"@ + logs,
        None => Seq::empty(),
    };
    text::lemma_contains_middle(a, job_name, "\nStatus: "@ + output.phase + "\n"@ + tail);
    assert(answer =~= a + job_name + ("\nStatus: "@ + output.phase + "\n"@ + tail));
    text::lemma_contains_middle(b, output.phase, "\n"@ + tail);
    assert(answer =~= b + output.phase + ("\n"@ + tail));
    if let Some(logs) = output.logs {
        let head = b + output.phase + "\n"@ + "\nLogs:\n"@;
        text::lemma_contains_middle(head, logs, Seq::empty());
        assert(answer =~= head + logs + Seq::<char>::empty());
    }
}

/// The answer of an install holds the name of the Job and the namespace in
/// which it runs.
pub proof fn law_install_answer_names_job(job_name: Seq<char>, namespace: Seq<char>)
    ensures
        text::contains_text(install_answer(job_name, namespace), job_name),
        text::contains_text(install_answer(job_name, namespace), namespace),
{
    let answer = install_answer(job_name, namespace);
    let a = "Helm install job created.\nJob:       "@;
    let b = a + job_name + "\nNamespace: "@;
    let after_job = answer.skip((a.len() + job_name.len()) as int);
    let after_namespace = answer.skip((b.len() + namespace.len()) as int);
    text::lemma_contains_middle(a, job_name, after_job);
    assert(answer =~= a + job_name + after_job);
    text::lemma_contains_middle(b, namespace, after_namespace);
    assert(answer =~= b + namespace + after_namespace);
}

/// Listing the releases of a cluster whose ID is known asks for a kubeconfig of
/// that ID, then for a Job, then waits for that very Job, 60 seconds at most,
/// and answers with its logs, or fails where the Job failed.
pub proof fn law_list_releases_run(
    namespace: Seq<char>,
    input: helm::ReleasesView,
    cluster_id: Seq<char>,
    kubeconfig: Seq<char>,
    job_name: Seq<char>,
    output: job_output::JobOutputView,
)
    ensures
        ({
            let a = ToolReplyView::Kubeconfig(Ok(kubeconfig));
            let b = ToolReplyView::Spawned(Ok(job_name));
            let c = ToolReplyView::Output(Ok(output));
            let start = authorize_releases(input, cluster_id);
            let second = tool_run(namespace, start, seq![a]);
            let third = tool_run(namespace, start, seq![a, b]);
            let last = tool_run(namespace, start, seq![a, b, c]);
            &&& start is Ask && start->Ask_0.request == ToolRequestView::GenerateKubeconfig {
                cluster_id,
            }
            &&& second is Ask && second->Ask_0.request == ToolRequestView::SpawnHelmJob(
                helm::list_run(input, cluster_id, kubeconfig),
            )
            &&& third is Ask && third->Ask_0.request == ToolRequestView::WaitForJob {
                job_name,
                timeout_nanos: 60_000_000_000,
            }
            &&& last == ToolStepView::Done(releases_answer(output))
        }),
{
    let a = ToolReplyView::Kubeconfig(Ok(kubeconfig));
    let b = ToolReplyView::Spawned(Ok(job_name));
    let c = ToolReplyView::Output(Ok(output));
    let start = authorize_releases(input, cluster_id);
    let second = tool_next(namespace, start->Ask_0, a);
    let third = tool_next(namespace, second->Ask_0, b);
    lemma_tool_run_last(namespace, start->Ask_0, a);
    lemma_tool_run_step(namespace, start->Ask_0, seq![a, b]);
    assert(seq![a, b].skip(1) =~= seq![b]);
    lemma_tool_run_last(namespace, second->Ask_0, b);
    lemma_tool_run_step(namespace, start->Ask_0, seq![a, b, c]);
    assert(seq![a, b, c].skip(1) =~= seq![b, c]);
    lemma_tool_run_step(namespace, second->Ask_0, seq![b, c]);
    assert(seq![b, c].skip(1) =~= seq![c]);
    lemma_tool_run_last(namespace, third->Ask_0, c);
}

/// Listing the releases takes a cluster's ID as it is, without asking for the
/// clusters. A name is looked up among the clusters first: from there on the
/// call is the list of releases of the cluster that has the name, and it fails
/// where none has it.
pub proof fn law_list_releases_resolves_cluster(
    namespace: Seq<char>,
    input: helm::ReleasesView,
    found: Seq<rancher::ClusterView>,
    replies: Seq<ToolReplyView>,
)
    ensures
        clusters::is_cluster_id(input.cluster) ==> releases_start(input) == authorize_releases(
            input,
            input.cluster,
        ),
        !clusters::is_cluster_id(input.cluster) ==> {
            &&& releases_start(input) is Ask
            &&& releases_start(input)->Ask_0.request == ToolRequestView::ListClusters
            &&& tool_run(
                namespace,
                releases_start(input),
                seq![ToolReplyView::Clusters(Ok(found))] + replies,
            ) == (match clusters::first_named(found, input.cluster) {
                Some(id) => tool_run(namespace, authorize_releases(input, id), replies),
                None => ToolStepView::Done(Err(clusters::unknown_cluster(input.cluster))),
            })
        },
{
    let all = seq![ToolReplyView::Clusters(Ok(found))] + replies;
    lemma_tool_run_step(namespace, releases_start(input)->Ask_0, all);
    assert(all.skip(1) =~= replies);
}

/// The reply is one to the request, well or ill.
pub open spec fn replies_to(request: ToolRequestView, reply: ToolReplyView) -> bool {
    match request {
        ToolRequestView::ListClusters => reply is Clusters,
        ToolRequestView::GenerateKubeconfig { .. } => reply is Kubeconfig,
        ToolRequestView::SpawnHelmJob(_) => reply is Spawned,
        ToolRequestView::GetJobOutput { .. } => reply is Output,
        ToolRequestView::WaitForJob { .. } => reply is Output,
    }
}

/// The call asks for what its state waits for.
pub open spec fn asks_for_what_it_needs(call: ToolCallView) -> bool {
    forall|reply: ToolReplyView|
        #![trigger answers(call.state, reply)]
        replies_to(call.request, reply) <==> answers(call.state, reply)
}

/// The most requests that a call in this state makes until it answers, the
/// one it waits for included.
pub open spec fn requests_left(state: ToolStateView) -> nat {
    match state {
        ToolStateView::ListingClusters => 1,
        ToolStateView::ResolvingForInstall(_) => 3,
        ToolStateView::AuthorizingInstall(_) => 2,
        ToolStateView::SpawningInstall => 1,
        ToolStateView::CheckingJob { .. } => 1,
        ToolStateView::ResolvingForReleases(_) => 4,
        ToolStateView::AuthorizingReleases { .. } => 3,
        ToolStateView::SpawningReleases => 2,
        ToolStateView::WaitingForReleases => 1,
    }
}

/// The step is the answer, or a call that asks for what it needs and makes no
/// more than `most` requests.
pub open spec fn ends_within(step: ToolStepView, most: nat) -> bool {
    match step {
        ToolStepView::Ask(call) => asks_for_what_it_needs(call) && requests_left(call.state)
            <= most,
        ToolStepView::Done(_) => true,
    }
}

/// Every tool makes a few requests only: one for the list of clusters and for
/// the status of a Job, three at most for an install, four at most for the list
/// of releases.
pub proof fn law_tools_make_few_requests(
    install: helm::InstallView,
    job_name: Seq<char>,
    releases: helm::ReleasesView,
)
    ensures
        ends_within(ask(ToolRequestView::ListClusters, ToolStateView::ListingClusters), 1),
        ends_within(install_start(install), 3),
        ends_within(
            ask(
                ToolRequestView::GetJobOutput { job_name },
                ToolStateView::CheckingJob { job_name },
            ),
            1,
        ),
        ends_within(releases_start(releases), 4),
{
}

/// Each reply to its request brings a call nearer to its answer.
pub proof fn law_replies_make_progress(
    namespace: Seq<char>,
    call: ToolCallView,
    reply: ToolReplyView,
)
    requires
        asks_for_what_it_needs(call),
        replies_to(call.request, reply),
    ensures
        ends_within(tool_next(namespace, call, reply), (requests_left(call.state) - 1) as nat),
{
    assert(answers(call.state, reply));
}

/// A request that fails ends the call, whatever the tool and however far it
/// has come, and its message is the error of the tool.
pub proof fn law_failure_ends_call(
    namespace: Seq<char>,
    call: ToolCallView,
    reply: ToolReplyView,
    more: Seq<ToolReplyView>,
)
    requires
        answers(call.state, reply),
        failure(reply) is Some,
    ensures
        tool_run(namespace, ToolStepView::Ask(call), seq![reply] + more) == ToolStepView::Done(
            Err(failure(reply)->Some_0),
        ),
{
    let all = seq![reply] + more;
    lemma_tool_run_step(namespace, call, all);
}

/// A cluster that is `local` or begins with `c-` goes straight to its
/// kubeconfig, under the very text that was given; for any other text the
/// clusters are asked for first.
pub proof fn law_tools_look_up_names_only(
    install: InstallChartInput,
    releases: ListReleasesInput,
)
    ensures
        ({
            let cluster = install.cluster@;
            let start = install_start(install@);
            &&& start is Ask
            &&& if cluster == "local"@ || (cluster.len() >= 2 && cluster[0] == 'c' && cluster[1]
                == '-') {
                start->Ask_0.request == ToolRequestView::GenerateKubeconfig { cluster_id: cluster }
            } else {
                start->Ask_0.request == ToolRequestView::ListClusters
            }
        }),
        ({
            let cluster = releases.cluster@;
            let start = releases_start(releases@);
            &&& start is Ask
            &&& if cluster == "local"@ || (cluster.len() >= 2 && cluster[0] == 'c' && cluster[1]
                == '-') {
                start->Ask_0.request == ToolRequestView::GenerateKubeconfig { cluster_id: cluster }
            } else {
                start->Ask_0.request == ToolRequestView::ListClusters
            }
        }),
{
    reveal_strlit("local");
    assert("local"@ =~= seq!['l', 'o', 'c', 'a', 'l']);
    clusters::law_ids_are_told_by_their_first_characters(install.cluster@);
    clusters::law_ids_are_told_by_their_first_characters(releases.cluster@);
}

/// The answer of an install says what was done, names the Job and the namespace
/// on lines of their own, and shows the call that checks on this very Job.
pub proof fn law_install_answer_shows_how_to_go_on(job_name: Seq<char>, namespace: Seq<char>)
    ensures
        ({
            let answer = install_answer(job_name, namespace);
            let head = "Helm install job created.\nJob:       "@ + job_name + "\nNamespace: "@
                + namespace;
            let end = "\n\nUse get_job_status(job_name=\""@ + job_name
                + "\") to check progress and retrieve logs."@;
            &&& head.is_prefix_of(answer)
            &&& end.is_suffix_of(answer)
            &&& answer.len() == head.len() + end.len()
        }),
{
    let answer = install_answer(job_name, namespace);
    let head = "Helm install job created.\nJob:       "@ + job_name + "\nNamespace: "@
        + namespace;
    let end = "\n\nUse get_job_status(job_name=\""@ + job_name
        + "\") to check progress and retrieve logs."@;
    assert(answer =~= head + end);
    assert(head =~= answer.subrange(0, head.len() as int));
    assert(end =~= answer.subrange(answer.len() - end.len(), answer.len() as int));
}

/// The answer about a Job begins with its name and its phase, a line each. Logs
/// follow under a heading where there are some, and are shown to the end; where
/// there are none, nothing follows.
pub proof fn law_status_answer_shows_the_logs(job_name: Seq<char>, output: JobOutput)
    ensures
        ({
            let answer = status_answer(job_name, output@);
            let head = "Job:    "@ + job_name + "\nStatus: "@ + output.phase@ + "\n"@;
            &&& head.is_prefix_of(answer)
            &&& match output.logs {
                Some(logs) => answer.skip(head.len() as int) == "\nLogs:\n"@ + logs@,
                None => answer.len() == head.len(),
            }
        }),
{
    let answer = status_answer(job_name, output@);
    let head = "Job:    "@ + job_name + "\nStatus: "@ + output.phase@ + "\n"@;
    assert(head =~= answer.subrange(0, head.len() as int));
    if let Some(logs) = output.logs {
        assert(answer.skip(head.len() as int) =~= "\nLogs:\n"@ + logs@);
    }
}

/// A run that listed releases answers exactly where it succeeded: with its logs
/// as they are, or with an empty list where it logged nothing. A run that failed
/// is an error that ends with its logs, or says that there are none.
pub proof fn law_releases_are_the_logs(output: JobOutput)
    ensures
        ({
            let answer = releases_answer(output@);
            &&& answer is Ok <==> output.succeeded
            &&& match output.logs {
                Some(logs) => {
                    &&& output.succeeded ==> answer->Ok_0 == logs@
                    &&& !output.succeeded ==> answer->Err_0 == "helm list failed:\n"@ + logs@
                },
                None => {
                    &&& output.succeeded ==> answer->Ok_0 == seq!['[', ']']
                    &&& !output.succeeded ==> answer->Err_0 == "helm list failed:\n(no logs)"@
                },
            }
        }),
{
    reveal_strlit("[]");
    reveal_strlit("helm list failed:\n");
    reveal_strlit("(no logs)");
    reveal_strlit("helm list failed:\n(no logs)");
    assert("[]"@ =~= seq!['[', ']']);
    assert("helm list failed:\n"@ + "(no logs)"@ =~= "helm list failed:\n(no logs)"@);
}

/// Where the clusters or the output of a Job cannot be had, `list_clusters` and
/// `get_job_status` fail with the message of that failure.
pub proof fn law_single_requests_fail_with_their_message(
    namespace: Seq<char>,
    job_name: Seq<char>,
    message: Seq<char>,
)
    ensures
        tool_run(
            namespace,
            ask(ToolRequestView::ListClusters, ToolStateView::ListingClusters),
            seq![ToolReplyView::Clusters(Err(message))],
        ) == ToolStepView::Done(Err(message)),
        tool_run(
            namespace,
            ask(
                ToolRequestView::GetJobOutput { job_name },
                ToolStateView::CheckingJob { job_name },
            ),
            seq![ToolReplyView::Output(Err(message))],
        ) == ToolStepView::Done(Err(message)),
{
    lemma_tool_run_last(
        namespace,
        ToolCallView {
            request: ToolRequestView::ListClusters,
            state: ToolStateView::ListingClusters,
        },
        ToolReplyView::Clusters(Err(message)),
    );
    lemma_tool_run_last(
        namespace,
        ToolCallView {
            request: ToolRequestView::GetJobOutput { job_name },
            state: ToolStateView::CheckingJob { job_name },
        },
        ToolReplyView::Output(Err(message)),
    );
}

/// An install fails with the message of whatever fails first: the list of
/// clusters, the kubeconfig, or the creation of the Job.
pub proof fn law_install_fails_with_the_first_failure(
    namespace: Seq<char>,
    input: helm::InstallView,
    cluster_id: Seq<char>,
    kubeconfig: Seq<char>,
    message: Seq<char>,
)
    ensures
        !clusters::is_cluster_id(input.cluster) ==> tool_run(
            namespace,
            install_start(input),
            seq![ToolReplyView::Clusters(Err(message))],
        ) == ToolStepView::Done(Err(message)),
        tool_run(
            namespace,
            authorize_install(input, cluster_id),
            seq![ToolReplyView::Kubeconfig(Err(message))],
        ) == ToolStepView::Done(Err(message)),
        tool_run(
            namespace,
            authorize_install(input, cluster_id),
            seq![ToolReplyView::Kubeconfig(Ok(kubeconfig)), ToolReplyView::Spawned(Err(message))],
        ) == ToolStepView::Done(Err(message)),
{
    let start = authorize_install(input, cluster_id);
    let a = ToolReplyView::Kubeconfig(Ok(kubeconfig));
    let b = ToolReplyView::Spawned(Err(message));
    lemma_tool_run_last(
        namespace,
        install_start(input)->Ask_0,
        ToolReplyView::Clusters(Err(message)),
    );
    lemma_tool_run_last(namespace, start->Ask_0, ToolReplyView::Kubeconfig(Err(message)));
    lemma_tool_run_step(namespace, start->Ask_0, seq![a, b]);
    assert(seq![a, b].skip(1) =~= seq![b]);
    lemma_tool_run_last(namespace, tool_next(namespace, start->Ask_0, a)->Ask_0, b);
}

/// A list of releases fails with the message of whatever fails first: the list
/// of clusters, the kubeconfig, the creation of the Job, or the wait for it.
pub proof fn law_list_releases_fails_with_the_first_failure(
    namespace: Seq<char>,
    input: helm::ReleasesView,
    cluster_id: Seq<char>,
    kubeconfig: Seq<char>,
    job_name: Seq<char>,
    message: Seq<char>,
)
    ensures
        !clusters::is_cluster_id(input.cluster) ==> tool_run(
            namespace,
            releases_start(input),
            seq![ToolReplyView::Clusters(Err(message))],
        ) == ToolStepView::Done(Err(message)),
        tool_run(
            namespace,
            authorize_releases(input, cluster_id),
            seq![ToolReplyView::Kubeconfig(Err(message))],
        ) == ToolStepView::Done(Err(message)),
        tool_run(
            namespace,
            authorize_releases(input, cluster_id),
            seq![ToolReplyView::Kubeconfig(Ok(kubeconfig)), ToolReplyView::Spawned(Err(message))],
        ) == ToolStepView::Done(Err(message)),
        tool_run(
            namespace,
            authorize_releases(input, cluster_id),
            seq![
                ToolReplyView::Kubeconfig(Ok(kubeconfig)),
                ToolReplyView::Spawned(Ok(job_name)),
                ToolReplyView::Output(Err(message)),
            ],
        ) == ToolStepView::Done(Err(message)),
{
    let start = authorize_releases(input, cluster_id);
    let a = ToolReplyView::Kubeconfig(Ok(kubeconfig));
    let b = ToolReplyView::Spawned(Err(message));
    let c = ToolReplyView::Spawned(Ok(job_name));
    let d = ToolReplyView::Output(Err(message));
    let second = tool_next(namespace, start->Ask_0, a);
    lemma_tool_run_last(
        namespace,
        releases_start(input)->Ask_0,
        ToolReplyView::Clusters(Err(message)),
    );
    lemma_tool_run_last(namespace, start->Ask_0, ToolReplyView::Kubeconfig(Err(message)));
    lemma_tool_run_step(namespace, start->Ask_0, seq![a, b]);
    assert(seq![a, b].skip(1) =~= seq![b]);
    lemma_tool_run_last(namespace, second->Ask_0, b);
    lemma_tool_run_step(namespace, start->Ask_0, seq![a, c, d]);
    assert(seq![a, c, d].skip(1) =~= seq![c, d]);
    lemma_tool_run_step(namespace, second->Ask_0, seq![c, d]);
    assert(seq![c, d].skip(1) =~= seq![d]);
    lemma_tool_run_last(namespace, tool_next(namespace, second->Ask_0, c)->Ask_0, d);
}

/// A reply to something else than a call asks for leaves the call as it is.
pub proof fn law_other_replies_change_nothing(
    namespace: Seq<char>,
    call: ToolCallView,
    reply: ToolReplyView,
)
    requires
        asks_for_what_it_needs(call),
        !replies_to(call.request, reply),
    ensures
        tool_next(namespace, call, reply) == ToolStepView::Ask(call),
{
    assert(!answers(call.state, reply));
}

} // verus!
