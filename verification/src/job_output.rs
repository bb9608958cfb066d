//! The state of a helm Job: its phase, the logs of its pods, and waiting for it
//! to finish.
use vstd::prelude::*;
use vstd::string::StringExecFns;

use crate::k8s;
use crate::k8s::K8sJobRunner;
use crate::text;

verus! {

/// What is known of a Job.
pub struct JobOutput {
    pub phase: &'static str,
    pub succeeded: bool,
    pub logs: Option<String>,
}

/// What a [`JobOutput`] holds.
pub struct JobOutputView {
    pub phase: Seq<char>,
    pub succeeded: bool,
    pub logs: Option<Seq<char>>,
}

impl View for JobOutput {
    type V = JobOutputView;

    open spec fn view(&self) -> JobOutputView {
        JobOutputView {
            phase: self.phase@,
            succeeded: self.succeeded,
            logs: self.logs.deep_view(),
        }
    }
}

// ---- Phase ----------------------------------------------------------------
/// The pod counts in the status of a Job; a count may be missing.
#[derive(Clone, Copy)]
pub struct JobStatus {
    pub active: Option<i32>,
    pub failed: Option<i32>,
    pub succeeded: Option<i32>,
}

/// The count is there and above zero.
pub open spec fn any_pods(count: Option<i32>) -> bool {
    count matches Some(n) && n > 0
}

/// Some pod of the Job succeeded. A Job without a status has no pods.
pub open spec fn has_succeeded(status: Option<JobStatus>) -> bool {
    status matches Some(s) && any_pods(s.succeeded)
}

/// Some pod of the Job is running.
pub open spec fn is_active(status: Option<JobStatus>) -> bool {
    status matches Some(s) && any_pods(s.active)
}

/// Some pod of the Job failed.
pub open spec fn has_failures(status: Option<JobStatus>) -> bool {
    status matches Some(s) && any_pods(s.failed)
}

/// No pod is running any more, and some pod has come to an end: the logs are
/// complete.
pub open spec fn is_done(status: Option<JobStatus>) -> bool {
    !is_active(status) && (has_succeeded(status) || has_failures(status))
}

/// The phase of a Job.
pub open spec fn phase_of(status: Option<JobStatus>) -> Seq<char> {
    if has_succeeded(status) {
        "Succeeded"@
    } else if is_active(status) {
        "Running"@
    } else if has_failures(status) {
        "Failed"@
    } else {
        "Pending"@
    }
}

/// The phases in which a Job has come to its end.
pub open spec fn is_final_phase(phase: Seq<char>) -> bool {
    phase == "Succeeded"@ || phase == "Failed"@
}

/// Whether a count is there and above zero.
fn counts_any(count: Option<i32>) -> (r: bool)
    ensures
        r == any_pods(count),
{
    match count {
        Some(n) => n > 0,
        None => false,
    }
}

/// What a status says of its Job.
pub struct JobState {
    pub phase: &'static str,
    pub succeeded: bool,
    pub done: bool,
}

/// Reads the phase off a Job's status.
pub fn job_state(status: Option<JobStatus>) -> (r: JobState)
    ensures
        r.phase@ == phase_of(status),
        r.succeeded == has_succeeded(status),
        r.done == is_done(status),
{
    let counts = match status {
        Some(counts) => counts,
        None => JobStatus { active: None, failed: None, succeeded: None },
    };
    let succeeded = counts_any(counts.succeeded);
    let active = counts_any(counts.active);
    let failed = counts_any(counts.failed);
    let phase: &'static str = if succeeded {
        "Succeeded"
    } else if !active && failed {
        "Failed"
    } else if active {
        "Running"
    } else {
        "Pending"
    };
    JobState { phase, succeeded, done: !active && (succeeded || failed) }
}

/// Whether a phase is final.
pub fn check_final_phase(phase: &str) -> (r: bool)
    ensures
        r == is_final_phase(phase@),
{
    text::same_text(phase, "Succeeded") || text::same_text(phase, "Failed")
}

// ---- Collecting the output ------------------------------------------------
/// How far a look at a Job has come, and what comes next.
pub enum OutputStep {
    /// Get the Job.
    GetJob { job_name: String, namespace: String },
    /// List the pods of the namespace that the label selector picks.
    ListPods { phase: &'static str, succeeded: bool, namespace: String, selector: String },
    /// Fetch the logs of a container of a pod of the namespace. `rest` are the
    /// pods that come after it, `logs` the logs fetched so far.
    FetchLogs {
        phase: &'static str,
        succeeded: bool,
        namespace: String,
        pod: String,
        container: &'static str,
        rest: Vec<String>,
        logs: Vec<String>,
    },
    /// The output, or why there is none.
    Finished(Result<JobOutput, String>),
}

/// What an [`OutputStep`] holds.
pub enum OutputStepView {
    GetJob { job_name: Seq<char>, namespace: Seq<char> },
    ListPods { phase: Seq<char>, succeeded: bool, namespace: Seq<char>, selector: Seq<char> },
    FetchLogs {
        phase: Seq<char>,
        succeeded: bool,
        namespace: Seq<char>,
        pod: Seq<char>,
        container: Seq<char>,
        rest: Seq<Seq<char>>,
        logs: Seq<Seq<char>>,
    },
    Finished(Result<JobOutputView, Seq<char>>),
}

/// What the API server answered.
pub enum OutputReply {
    /// The Job could not be had.
    NoJob,
    /// The Job's status, where it has one.
    Job(Option<JobStatus>),
    /// The pods could not be listed.
    NoPods,
    /// The names of the pods; a pod may lack one.
    Pods(Vec<Option<String>>),
    /// The logs could not be fetched.
    NoLogs,
    /// The logs.
    Logs(String),
}

/// What an [`OutputReply`] holds.
pub enum OutputReplyView {
    NoJob,
    Job(Option<JobStatus>),
    NoPods,
    Pods(Seq<Option<Seq<char>>>),
    NoLogs,
    Logs(Seq<char>),
}

/// The output of a result, or its message.
pub open spec fn output_of(result: Result<JobOutput, String>) -> Result<
    JobOutputView,
    Seq<char>,
> {
    match result {
        Ok(output) => Ok(output@),
        Err(message) => Err(message@),
    }
}

impl View for OutputStep {
    type V = OutputStepView;

    open spec fn view(&self) -> OutputStepView {
        match self {
            OutputStep::GetJob { job_name, namespace } => OutputStepView::GetJob {
                job_name: job_name@,
                namespace: namespace@,
            },
            OutputStep::ListPods { phase, succeeded, namespace, selector } => {
                OutputStepView::ListPods {
                    phase: phase@,
                    succeeded: *succeeded,
                    namespace: namespace@,
                    selector: selector@,
                }
            },
            OutputStep::FetchLogs { phase, succeeded, namespace, pod, container, rest, logs } => {
                OutputStepView::FetchLogs {
                    phase: phase@,
                    succeeded: *succeeded,
                    namespace: namespace@,
                    pod: pod@,
                    container: container@,
                    rest: rest.deep_view(),
                    logs: logs.deep_view(),
                }
            },
            OutputStep::Finished(result) => OutputStepView::Finished(output_of(*result)),
        }
    }
}

impl View for OutputReply {
    type V = OutputReplyView;

    open spec fn view(&self) -> OutputReplyView {
        match self {
            OutputReply::NoJob => OutputReplyView::NoJob,
            OutputReply::Job(status) => OutputReplyView::Job(*status),
            OutputReply::NoPods => OutputReplyView::NoPods,
            OutputReply::Pods(pods) => OutputReplyView::Pods(pods.deep_view()),
            OutputReply::NoLogs => OutputReplyView::NoLogs,
            OutputReply::Logs(logs) => OutputReplyView::Logs(logs@),
        }
    }
}

/// The texts that are there, in order.
pub open spec fn present(texts: Seq<Option<Seq<char>>>) -> Seq<Seq<char>>
    decreases texts.len(),
{
    if texts.len() == 0 {
        Seq::empty()
    } else {
        match texts.first() {
            Some(text) => seq![text] + present(texts.drop_first()),
            None => present(texts.drop_first()),
        }
    }
}

/// The label selector of a Job's pods.
pub open spec fn pod_selector(job_name: Seq<char>) -> Seq<char> {
    "batch.kubernetes.io/job-name="@ + job_name
}

/// The logs of several pods as one text; no logs at all are none.
pub open spec fn gathered(logs: Seq<Seq<char>>) -> Option<Seq<char>> {
    if logs.len() == 0 {
        None
    } else {
        Some(text::joined(logs, "\n"@))
    }
}

/// The output of a Job whose logs are as given.
pub open spec fn finished_output(
    phase: Seq<char>,
    succeeded: bool,
    logs: Option<Seq<char>>,
) -> OutputStepView {
    OutputStepView::Finished(Ok(JobOutputView { phase, succeeded, logs }))
}

/// What follows when `pods` are still to be asked for their logs.
pub open spec fn fetch_next(
    phase: Seq<char>,
    succeeded: bool,
    namespace: Seq<char>,
    pods: Seq<Seq<char>>,
    logs: Seq<Seq<char>>,
) -> OutputStepView {
    if pods.len() == 0 {
        finished_output(phase, succeeded, gathered(logs))
    } else {
        OutputStepView::FetchLogs {
            phase,
            succeeded,
            namespace,
            pod: pods.first(),
            container: k8s::HELM_CONTAINER@,
            rest: pods.drop_first(),
            logs,
        }
    }
}

/// What follows on a reply. Logs are collected only of a Job that is done;
/// pods without a name are passed over, and so are logs that cannot be had.
/// A reply to something else changes nothing.
pub open spec fn output_next(step: OutputStepView, reply: OutputReplyView) -> OutputStepView {
    match (step, reply) {
        (OutputStepView::GetJob { job_name, namespace }, OutputReplyView::NoJob) => {
            OutputStepView::Finished(
                Err("job "@ + job_name + " not found in namespace "@ + namespace),
            )
        },
        (OutputStepView::GetJob { job_name, namespace }, OutputReplyView::Job(status)) => {
            if is_done(status) {
                OutputStepView::ListPods {
                    phase: phase_of(status),
                    succeeded: has_succeeded(status),
                    namespace,
                    selector: pod_selector(job_name),
                }
            } else {
                finished_output(phase_of(status), has_succeeded(status), None)
            }
        },
        (
            OutputStepView::ListPods { phase, succeeded, namespace, selector },
            OutputReplyView::NoPods,
        ) => finished_output(phase, succeeded, None),
        (
            OutputStepView::ListPods { phase, succeeded, namespace, selector },
            OutputReplyView::Pods(pods),
        ) => fetch_next(phase, succeeded, namespace, present(pods), Seq::empty()),
        (
            OutputStepView::FetchLogs { phase, succeeded, namespace, pod, container, rest, logs },
            OutputReplyView::NoLogs,
        ) => fetch_next(phase, succeeded, namespace, rest, logs),
        (
            OutputStepView::FetchLogs { phase, succeeded, namespace, pod, container, rest, logs },
            OutputReplyView::Logs(log),
        ) => fetch_next(phase, succeeded, namespace, rest, logs.push(log)),
        _ => step,
    }
}

/// Texts behind those that are there count in the same way.
proof fn lemma_present_push(texts: Seq<Option<Seq<char>>>, last: Option<Seq<char>>)
    ensures
        present(texts.push(last)) == (match last {
            Some(text) => present(texts).push(text),
            None => present(texts),
        }),
    decreases texts.len(),
{
    let more = texts.push(last);
    if texts.len() == 0 {
        assert(more.drop_first() =~= texts);
        assert(present(texts) =~= Seq::empty());
        assert(present(more) =~= (match last {
            Some(text) => present(texts).push(text),
            None => present(texts),
        }));
    } else {
        assert(more.drop_first() =~= texts.drop_first().push(last));
        lemma_present_push(texts.drop_first(), last);
        assert(present(more) =~= (match last {
            Some(text) => present(texts).push(text),
            None => present(texts),
        }));
    }
}

/// The pods that have a name.
fn named_pods(pods: &Vec<Option<String>>) -> (r: Vec<String>)
    ensures
        r.deep_view() == present(pods.deep_view()),
{
    let ghost all = pods.deep_view();
    let mut named: Vec<String> = Vec::new();
    let mut i: usize = 0;
    assert(named.deep_view() =~= present(all.take(0)));
    while i < pods.len()
        invariant
            i <= pods@.len(),
            all == pods.deep_view(),
            named.deep_view() == present(all.take(i as int)),
        decreases pods@.len() - i,
    {
        proof {
            assert(all.take(i + 1) =~= all.take(i as int).push(all[i as int]));
            lemma_present_push(all.take(i as int), all[i as int]);
        }
        let ghost before = named.deep_view();
        if let Some(name) = &pods[i] {
            named.push(name.clone());
            assert(named.deep_view() =~= before.push(name@));
        }
        i += 1;
    }
    assert(all.take(i as int) =~= all);
    named
}

/// The outcome of collecting the logs of a Job's pods: the logs that were
/// fetched, as one text, or the message that the pods could not be listed. No
/// logs at all are none; an empty log is one.
pub fn collected(listed: bool, logs: &Vec<String>) -> (r: Result<Option<String>, String>)
    ensures
        match r {
            Ok(text) => listed && text.deep_view() == gathered(logs.deep_view()),
            Err(message) => !listed && message@ == "failed to list job pods"@,
        },
{
    if !listed {
        Err("failed to list job pods".to_string())
    } else if logs.len() == 0 {
        Ok(None)
    } else {
        Ok(Some(text::join(logs, "\n")))
    }
}

/// The step that ends a look. Logs that could not be collected are left out.
fn finish(
    phase: &'static str,
    succeeded: bool,
    collection: Result<Option<String>, String>,
) -> (r: OutputStep)
    ensures
        r@ == finished_output(
            phase@,
            succeeded,
            match collection {
                Ok(logs) => logs.deep_view(),
                Err(_) => None,
            },
        ),
{
    let logs = match collection {
        Ok(logs) => logs,
        Err(_) => None,
    };
    OutputStep::Finished(Ok(JobOutput { phase, succeeded, logs }))
}

/// The step at which `pods` are still to be asked for their logs.
fn next_fetch(
    phase: &'static str,
    succeeded: bool,
    namespace: String,
    pods: Vec<String>,
    logs: Vec<String>,
) -> (r: OutputStep)
    ensures
        r@ == fetch_next(phase@, succeeded, namespace@, pods.deep_view(), logs.deep_view()),
{
    if pods.len() == 0 {
        finish(phase, succeeded, collected(true, &logs))
    } else {
        let mut rest = pods;
        let pod = rest.remove(0);
        assert(rest.deep_view() =~= pods.deep_view().drop_first());
        OutputStep::FetchLogs {
            phase,
            succeeded,
            namespace,
            pod,
            container: k8s::HELM_CONTAINER,
            rest,
            logs,
        }
    }
}

impl OutputStep {
    /// Goes on from a step once the API server has answered.
    pub fn resume(self, reply: OutputReply) -> (r: OutputStep)
        ensures
            r@ == output_next(self@, reply@),
    {
        match (self, reply) {
            (OutputStep::GetJob { job_name, namespace }, OutputReply::NoJob) => {
                let message = "job ".to_string().concat(job_name.as_str()).concat(
                    " not found in namespace ",
                ).concat(namespace.as_str());
                OutputStep::Finished(Err(message))
            },
            (OutputStep::GetJob { job_name, namespace }, OutputReply::Job(status)) => {
                let state = job_state(status);
                if state.done {
                    OutputStep::ListPods {
                        phase: state.phase,
                        succeeded: state.succeeded,
                        namespace,
                        selector: "batch.kubernetes.io/job-name=".to_string().concat(
                            job_name.as_str(),
                        ),
                    }
                } else {
                    OutputStep::Finished(
                        Ok(
                            JobOutput {
                                phase: state.phase,
                                succeeded: state.succeeded,
                                logs: None,
                            },
                        ),
                    )
                }
            },
            (
                OutputStep::ListPods { phase, succeeded, namespace, selector },
                OutputReply::NoPods,
            ) => {
                let logs: Vec<String> = Vec::new();
                finish(phase, succeeded, collected(false, &logs))
            },
            (
                OutputStep::ListPods { phase, succeeded, namespace, selector },
                OutputReply::Pods(pods),
            ) => {
                let logs: Vec<String> = Vec::new();
                assert(logs.deep_view() =~= Seq::empty());
                next_fetch(phase, succeeded, namespace, named_pods(&pods), logs)
            },
            (
                OutputStep::FetchLogs { phase, succeeded, namespace, pod, container, rest, logs },
                OutputReply::NoLogs,
            ) => next_fetch(phase, succeeded, namespace, rest, logs),
            (
                OutputStep::FetchLogs { phase, succeeded, namespace, pod, container, rest, logs },
                OutputReply::Logs(log),
            ) => {
                let ghost before = logs.deep_view();
                let mut all = logs;
                all.push(log);
                assert(all.deep_view() =~= before.push(log@));
                next_fetch(phase, succeeded, namespace, rest, all)
            },
            (step, _) => step,
        }
    }
}

/// The first step of a look at a Job.
pub open spec fn output_start(runner: k8s::RunnerView, job_name: Seq<char>) -> OutputStepView {
    OutputStepView::GetJob { job_name, namespace: runner.namespace }
}

impl K8sJobRunner {
    /// Begins a look at the status and the logs of a Job.
    pub fn get_job_output(&self, job_name: &str) -> (r: OutputStep)
        ensures
            r@ == (OutputStepView::GetJob { job_name: job_name@, namespace: self@.namespace }),
            r@ == output_start(self@, job_name@),
    {
        OutputStep::GetJob {
            job_name: job_name.to_string(),
            namespace: self.namespace().to_string(),
        }
    }

    /// Begins to wait for a Job to finish, for `timeout_nanos` at most.
    pub fn wait_for_job(&self, job_name: &str, timeout_nanos: u128) -> (r: WaitCall)
        ensures
            r@ == (WaitView { job_name: job_name@, timeout_nanos: timeout_nanos as nat }),
    {
        WaitCall { job_name: job_name.to_string(), timeout_nanos }
    }
}

// ---- Waiting --------------------------------------------------------------
/// The seconds between two looks at a Job that has not finished.
pub const POLL_SECONDS: u64 = 3;

/// The nanoseconds of a second.
pub const NANOS_PER_SECOND: u128 = 1_000_000_000;

/// A wait for a Job to finish. The Job is looked at again and again, with a
/// pause between two looks.
pub struct WaitCall {
    pub job_name: String,
    pub timeout_nanos: u128,
}

/// What a [`WaitCall`] holds.
pub struct WaitView {
    pub job_name: Seq<char>,
    pub timeout_nanos: nat,
}

impl View for WaitCall {
    type V = WaitView;

    open spec fn view(&self) -> WaitView {
        WaitView { job_name: self.job_name@, timeout_nanos: self.timeout_nanos as nat }
    }
}

/// What follows a look at the Job.
pub enum WaitStep {
    /// Pause, then look again.
    Sleep { seconds: u64 },
    /// The output of the finished Job, or why there is none.
    Finished(Result<JobOutput, String>),
}

/// What a [`WaitStep`] holds.
pub enum WaitStepView {
    Sleep { seconds: nat },
    Finished(Result<JobOutputView, Seq<char>>),
}

impl View for WaitStep {
    type V = WaitStepView;

    open spec fn view(&self) -> WaitStepView {
        match self {
            WaitStep::Sleep { seconds } => WaitStepView::Sleep { seconds: *seconds as nat },
            WaitStep::Finished(result) => WaitStepView::Finished(output_of(*result)),
        }
    }
}

/// One look at a Job: what came of it, and the time since the wait began.
pub struct PollView {
    pub result: Result<JobOutputView, Seq<char>>,
    pub elapsed_nanos: nat,
}

/// The message of a wait that ran out of time.
pub open spec fn timeout_message(wait: WaitView) -> Seq<char> {
    "job "@ + wait.job_name + " did not complete within "@ + text::decimal(
        wait.timeout_nanos / NANOS_PER_SECOND as nat,
    ) + "s"@
}

/// What follows a look. A failed look ends the wait, and so does a finished
/// Job, however late; otherwise the wait goes on until the time is up.
pub open spec fn wait_next(wait: WaitView, poll: PollView) -> WaitStepView {
    match poll.result {
        Err(message) => WaitStepView::Finished(Err(message)),
        Ok(output) => if is_final_phase(output.phase) {
            WaitStepView::Finished(Ok(output))
        } else if poll.elapsed_nanos >= wait.timeout_nanos {
            WaitStepView::Finished(Err(timeout_message(wait)))
        } else {
            WaitStepView::Sleep { seconds: POLL_SECONDS as nat }
        },
    }
}

impl WaitCall {
    /// Decides what follows a look at the Job. `elapsed_nanos` is the time
    /// since the wait began.
    pub fn after_poll(&self, polled: Result<JobOutput, String>, elapsed_nanos: u128) -> (r:
        WaitStep)
        ensures
            r@ == wait_next(
                self@,
                (PollView { result: output_of(polled), elapsed_nanos: elapsed_nanos as nat }),
            ),
    {
        match polled {
            Err(message) => WaitStep::Finished(Err(message)),
            Ok(output) => if check_final_phase(output.phase) {
                WaitStep::Finished(Ok(output))
            } else if elapsed_nanos >= self.timeout_nanos {
                let seconds = text::decimal_text(self.timeout_nanos / NANOS_PER_SECOND);
                let message = "job ".to_string().concat(self.job_name.as_str()).concat(
                    " did not complete within ",
                ).concat(seconds.as_str()).concat("s");
                WaitStep::Finished(Err(message))
            } else {
                WaitStep::Sleep { seconds: POLL_SECONDS }
            },
        }
    }
}

// ---- Laws -----------------------------------------------------------------
/// A Job is in one of four phases, and it is in a final one wherever its logs
/// are collected.
pub proof fn law_four_phases(status: Option<JobStatus>)
    ensures
        phase_of(status) == "Pending"@ || phase_of(status) == "Running"@ || phase_of(status)
            == "Succeeded"@ || phase_of(status) == "Failed"@,
        is_done(status) ==> is_final_phase(phase_of(status)),
        has_succeeded(status) <==> phase_of(status) == "Succeeded"@,
{
    reveal_strlit("Pending");
    reveal_strlit("Running");
    reveal_strlit("Succeeded");
    reveal_strlit("Failed");
    assert("Succeeded"@.len() == 9);
    assert("Running"@.len() == 7);
    assert("Pending"@.len() == 7);
    assert("Failed"@.len() == 6);
}

/// Where a look at a Job has come to after all the replies.
pub open spec fn output_run(step: OutputStepView, replies: Seq<OutputReplyView>) -> OutputStepView
    decreases replies.len(),
{
    if replies.len() == 0 {
        step
    } else {
        output_run(output_next(step, replies.first()), replies.drop_first())
    }
}

/// The reply that brings these logs, or the lack of them.
pub open spec fn logs_reply(log: Option<Seq<char>>) -> OutputReplyView {
    match log {
        Some(text) => OutputReplyView::Logs(text),
        None => OutputReplyView::NoLogs,
    }
}

/// The replies that bring these logs.
pub open spec fn logs_replies(fetched: Seq<Option<Seq<char>>>) -> Seq<OutputReplyView> {
    fetched.map_values(|log: Option<Seq<char>>| logs_reply(log))
}

/// A step that asks `pods` for their logs gives what was there before and what
/// the pods still give.
proof fn lemma_fetch_run(
    phase: Seq<char>,
    succeeded: bool,
    namespace: Seq<char>,
    pods: Seq<Seq<char>>,
    logs: Seq<Seq<char>>,
    fetched: Seq<Option<Seq<char>>>,
)
    requires
        fetched.len() == pods.len(),
    ensures
        output_run(fetch_next(phase, succeeded, namespace, pods, logs), logs_replies(fetched))
            == finished_output(phase, succeeded, gathered(logs + present(fetched))),
    decreases pods.len(),
{
    let replies = logs_replies(fetched);
    if pods.len() == 0 {
        assert(logs + present(fetched) =~= logs);
    } else {
        let more = match fetched.first() {
            Some(text) => logs.push(text),
            None => logs,
        };
        assert(replies.first() == logs_reply(fetched.first()));
        assert(replies.drop_first() =~= logs_replies(fetched.drop_first()));
        lemma_fetch_run(
            phase,
            succeeded,
            namespace,
            pods.drop_first(),
            more,
            fetched.drop_first(),
        );
        assert(more + present(fetched.drop_first()) =~= logs + present(fetched));
    }
}

/// The output of a Job that is done holds its phase and the logs of all its
/// pods that have a name and whose logs could be fetched, in the order of the
/// pods, one after the other on new lines; it holds no logs where no pod gave
/// any.
pub proof fn law_output_gathers_all_logs(
    job_name: Seq<char>,
    namespace: Seq<char>,
    status: Option<JobStatus>,
    pods: Seq<Option<Seq<char>>>,
    fetched: Seq<Option<Seq<char>>>,
)
    requires
        is_done(status),
        fetched.len() == present(pods).len(),
    ensures
        output_run(
            OutputStepView::GetJob { job_name, namespace },
            seq![OutputReplyView::Job(status), OutputReplyView::Pods(pods)] + logs_replies(
                fetched,
            ),
        ) == finished_output(phase_of(status), has_succeeded(status), gathered(present(fetched))),
{
    let start = OutputStepView::GetJob { job_name, namespace };
    let replies = seq![OutputReplyView::Job(status), OutputReplyView::Pods(pods)] + logs_replies(
        fetched,
    );
    let second = output_next(start, replies[0]);
    let third = output_next(second, replies[1]);
    assert(replies.drop_first().first() == replies[1]);
    assert(replies.drop_first().drop_first() =~= logs_replies(fetched));
    assert(output_run(start, replies) == output_run(second, replies.drop_first()));
    assert(output_run(second, replies.drop_first()) == output_run(third, logs_replies(fetched)));
    lemma_fetch_run(
        phase_of(status),
        has_succeeded(status),
        namespace,
        present(pods),
        Seq::empty(),
        fetched,
    );
    assert(Seq::<Seq<char>>::empty() + present(fetched) =~= present(fetched));
}

/// A Job that has not come to an end is reported without logs, and nothing is
/// asked of its pods.
pub proof fn law_unfinished_job_has_no_logs(
    job_name: Seq<char>,
    namespace: Seq<char>,
    status: Option<JobStatus>,
)
    requires
        !is_done(status),
    ensures
        output_next(
            OutputStepView::GetJob { job_name, namespace },
            OutputReplyView::Job(status),
        ) == finished_output(phase_of(status), has_succeeded(status), None),
{
}

/// A Job that is done is reported without logs where its pods cannot be listed;
/// that is no failure of the look.
pub proof fn law_unlisted_pods_give_no_logs(
    job_name: Seq<char>,
    namespace: Seq<char>,
    status: Option<JobStatus>,
)
    requires
        is_done(status),
    ensures
        output_run(
            OutputStepView::GetJob { job_name, namespace },
            seq![OutputReplyView::Job(status), OutputReplyView::NoPods],
        ) == finished_output(phase_of(status), has_succeeded(status), None),
{
    let start = OutputStepView::GetJob { job_name, namespace };
    let replies = seq![OutputReplyView::Job(status), OutputReplyView::NoPods];
    let second = output_next(start, replies[0]);
    assert(replies.drop_first() =~= seq![OutputReplyView::NoPods]);
    assert(output_run(start, replies) == output_run(second, seq![OutputReplyView::NoPods]));
    assert(seq![OutputReplyView::NoPods].drop_first() =~= Seq::empty());
    assert(output_run(second, seq![OutputReplyView::NoPods]) == output_run(
        output_next(second, OutputReplyView::NoPods),
        Seq::empty(),
    ));
}

/// The Job, its pods and their logs are asked for in the runner's namespace.
/// The pods are found by the name of the Job, and the logs are fetched from the
/// container that the Job's pod runs helm in.
pub proof fn law_logs_come_from_the_helm_container(
    runner: k8s::RunnerView,
    run: k8s::RunView,
    uuid: Seq<char>,
    status: Option<JobStatus>,
    pods: Seq<Option<Seq<char>>>,
)
    requires
        is_done(status),
        present(pods).len() > 0,
    ensures
        ({
            let job = k8s::plan_of(runner, run, uuid).job;
            let start = OutputStepView::GetJob { job_name: job.name, namespace: runner.namespace };
            let listing = output_next(start, OutputReplyView::Job(status));
            let fetching = output_next(listing, OutputReplyView::Pods(pods));
            &&& listing is ListPods
            &&& listing->ListPods_namespace == runner.namespace
            &&& listing->selector == "batch.kubernetes.io/job-name="@ + job.name
            &&& fetching is FetchLogs
            &&& fetching->FetchLogs_namespace == runner.namespace
            &&& fetching->container == job.containers[0].name
            &&& fetching->pod == present(pods)[0]
            &&& job.namespace == runner.namespace
        }),
{
}

/// The namespace in which a step asks for something; the last step asks for
/// nothing.
pub open spec fn asks_in(step: OutputStepView) -> Option<Seq<char>> {
    match step {
        OutputStepView::GetJob { job_name, namespace } => Some(namespace),
        OutputStepView::ListPods { phase, succeeded, namespace, selector } => Some(namespace),
        OutputStepView::FetchLogs { phase, succeeded, namespace, pod, container, rest, logs } => {
            Some(namespace)
        },
        OutputStepView::Finished(_) => None,
    }
}

/// A look that is over stays over.
proof fn lemma_finished_stays(step: OutputStepView, replies: Seq<OutputReplyView>)
    requires
        step is Finished,
    ensures
        output_run(step, replies) == step,
    decreases replies.len(),
{
    if replies.len() > 0 {
        lemma_finished_stays(step, replies.drop_first());
    }
}

/// Whatever is answered, a look never leaves the namespace that it began in.
pub proof fn law_look_stays_in_namespace(step: OutputStepView, replies: Seq<OutputReplyView>)
    ensures
        output_run(step, replies) is Finished || asks_in(output_run(step, replies)) == asks_in(
            step,
        ),
    decreases replies.len(),
{
    if replies.len() > 0 {
        let next = output_next(step, replies.first());
        law_look_stays_in_namespace(next, replies.drop_first());
        if next is Finished {
            lemma_finished_stays(next, replies.drop_first());
        }
    }
}

/// The outcome of a wait after the given looks: that of the first look that
/// ends it, or nothing while it goes on.
pub open spec fn wait_outcome(wait: WaitView, polls: Seq<PollView>) -> Option<
    Result<JobOutputView, Seq<char>>,
>
    decreases polls.len(),
{
    if polls.len() == 0 {
        None
    } else {
        match wait_next(wait, polls.first()) {
            WaitStepView::Finished(result) => Some(result),
            WaitStepView::Sleep { .. } => wait_outcome(wait, polls.drop_first()),
        }
    }
}

/// The wait goes on after this look: it found the Job, not finished, in time.
pub open spec fn goes_on(wait: WaitView, poll: PollView) -> bool {
    &&& poll.result is Ok
    &&& !is_final_phase(poll.result->Ok_0.phase)
    &&& poll.elapsed_nanos < wait.timeout_nanos
}

/// A wait ends with the output of the first look that finds the Job finished,
/// as long as no look before it failed or came too late.
pub proof fn law_wait_returns_first_finished(wait: WaitView, polls: Seq<PollView>, n: int)
    requires
        0 <= n < polls.len(),
        forall|i: int| 0 <= i < n ==> goes_on(wait, #[trigger] polls[i]),
        polls[n].result is Ok,
        is_final_phase(polls[n].result->Ok_0.phase),
    ensures
        wait_outcome(wait, polls) == Some(polls[n].result),
    decreases n,
{
    if n > 0 {
        assert(wait_next(wait, polls[0]) is Sleep);
        law_wait_returns_first_finished(wait, polls.drop_first(), n - 1);
    }
}

/// A wait is over once a look was made after its time was up: it does not go
/// on for ever.
pub proof fn law_wait_ends_in_time(wait: WaitView, polls: Seq<PollView>, n: int)
    requires
        0 <= n < polls.len(),
        polls[n].elapsed_nanos >= wait.timeout_nanos,
    ensures
        wait_outcome(wait, polls) is Some,
    decreases n,
{
    if n > 0 {
        law_wait_ends_in_time(wait, polls.drop_first(), n - 1);
    }
}

/// The wait went on after every look before `n`, and not after that one.
pub open spec fn ends_at(wait: WaitView, polls: Seq<PollView>, n: int) -> bool {
    &&& 0 <= n < polls.len()
    &&& !goes_on(wait, polls[n])
    &&& forall|i: int| 0 <= i < n ==> goes_on(wait, #[trigger] polls[i])
}

/// A wait that has an outcome ended at one look, after which it could not go on
/// although it did after every earlier one. An output is that of this look,
/// which found the Job finished. The message of a timeout comes from a look
/// that was made when the time was up, or that failed with the same words.
/// Any other message is that of a look that failed.
pub proof fn law_wait_ends_rightly(wait: WaitView, polls: Seq<PollView>)
    ensures
        wait_outcome(wait, polls) matches Some(outcome) ==> exists|n: int|
            {
                &&& #[trigger] ends_at(wait, polls, n)
                &&& match outcome {
                    Ok(output) => polls[n].result == Ok::<JobOutputView, Seq<char>>(output)
                        && is_final_phase(output.phase),
                    Err(message) => polls[n].result == Err::<JobOutputView, Seq<char>>(message)
                        || (message == timeout_message(wait) && polls[n].result is Ok
                        && polls[n].elapsed_nanos >= wait.timeout_nanos),
                }
            },
    decreases polls.len(),
{
    if polls.len() > 0 && wait_outcome(wait, polls) is Some {
        let rest = polls.drop_first();
        if wait_next(wait, polls[0]) is Sleep {
            law_wait_ends_rightly(wait, rest);
            let outcome = wait_outcome(wait, rest)->Some_0;
            let n = choose|n: int|
                {
                    &&& #[trigger] ends_at(wait, rest, n)
                    &&& match outcome {
                        Ok(output) => rest[n].result == Ok::<JobOutputView, Seq<char>>(output)
                            && is_final_phase(output.phase),
                        Err(message) => rest[n].result == Err::<JobOutputView, Seq<char>>(message)
                            || (message == timeout_message(wait) && rest[n].result is Ok
                            && rest[n].elapsed_nanos >= wait.timeout_nanos),
                    }
                };
            assert(polls[n + 1] == rest[n]);
            assert forall|i: int| 0 <= i < n + 1 implies goes_on(wait, #[trigger] polls[i]) by {
                if i > 0 {
                    assert(polls[i] == rest[i - 1]);
                }
            }
            assert(ends_at(wait, polls, n + 1));
        } else {
            assert(ends_at(wait, polls, 0));
        }
    }
}

/// The phase follows from the counts: a pod that succeeded settles it, a running
/// pod comes next, then a failed one; without any of them the Job is pending.
/// The Job is done once no pod runs and one has succeeded or failed.
pub proof fn law_phase_follows_from_counts(
    active: Option<i32>,
    failed: Option<i32>,
    succeeded: Option<i32>,
)
    ensures
        ({
            let status = Some(JobStatus { active, failed, succeeded });
            let runs = active is Some && active->Some_0 >= 1;
            let fails = failed is Some && failed->Some_0 >= 1;
            let succeeds = succeeded is Some && succeeded->Some_0 >= 1;
            &&& phase_of(status) == "Succeeded"@ <==> succeeds
            &&& phase_of(status) == "Running"@ <==> runs && !succeeds
            &&& phase_of(status) == "Failed"@ <==> fails && !runs && !succeeds
            &&& phase_of(status) == "Pending"@ <==> !fails && !runs && !succeeds
            &&& has_succeeded(status) <==> succeeds
            &&& is_done(status) <==> !runs && (succeeds || fails)
            &&& is_final_phase(phase_of(status)) <==> succeeds || (fails && !runs)
        }),
        phase_of(None) == "Pending"@,
        !has_succeeded(None) && !is_done(None),
{
    reveal_strlit("Pending");
    reveal_strlit("Running");
    reveal_strlit("Succeeded");
    reveal_strlit("Failed");
    assert("Succeeded"@.len() == 9);
    assert("Running"@.len() == 7 && "Running"@[0] == 'R');
    assert("Pending"@.len() == 7 && "Pending"@[0] == 'P');
    assert("Failed"@.len() == 6);
}

/// Two words are final phases, and no others.
pub proof fn law_two_final_phases(phase: Seq<char>)
    ensures
        is_final_phase(phase) <==> phase == seq!['S', 'u', 'c', 'c', 'e', 'e', 'd', 'e', 'd']
            || phase == seq!['F', 'a', 'i', 'l', 'e', 'd'],
{
    reveal_strlit("Succeeded");
    reveal_strlit("Failed");
    assert("Succeeded"@ =~= seq!['S', 'u', 'c', 'c', 'e', 'e', 'd', 'e', 'd']);
    assert("Failed"@ =~= seq!['F', 'a', 'i', 'l', 'e', 'd']);
}

/// Of texts that may be missing, those that are there stay, in their order: one
/// more at the end comes last, and one that is missing changes nothing.
pub proof fn law_present_texts_stay_in_order(texts: Seq<Option<Seq<char>>>, text: Seq<char>)
    ensures
        present(Seq::empty()).len() == 0,
        present(texts.push(Some(text))) == present(texts).push(text),
        present(texts.push(None)) == present(texts),
{
    lemma_present_push(texts, Some(text));
    lemma_present_push(texts, None);
}

/// A text that is there is among those that stay.
proof fn lemma_present_holds(texts: Seq<Option<Seq<char>>>, i: int) -> (at: int)
    requires
        0 <= i < texts.len(),
        texts[i] is Some,
    ensures
        0 <= at < present(texts).len(),
        present(texts)[at] == texts[i]->Some_0,
    decreases texts.len(),
{
    if i == 0 {
        0
    } else {
        let at = lemma_present_holds(texts.drop_first(), i - 1);
        if texts.first() is Some {
            at + 1
        } else {
            at
        }
    }
}

/// Where no text is there, none stays.
proof fn lemma_none_present(texts: Seq<Option<Seq<char>>>)
    requires
        forall|i: int| 0 <= i < texts.len() ==> #[trigger] texts[i] is None,
    ensures
        present(texts).len() == 0,
    decreases texts.len(),
{
    if texts.len() > 0 {
        assert(texts[0] is None);
        assert forall|i: int| 0 <= i < texts.drop_first().len() implies #[trigger] texts.drop_first()[i] is None by {
            assert(texts.drop_first()[i] == texts[i + 1]);
        }
        lemma_none_present(texts.drop_first());
    }
}

/// The logs gathered from one pod are that pod's log, and the log of one pod
/// more comes last, on a new line.
pub proof fn law_logs_grow_pod_by_pod(logs: Seq<Seq<char>>, log: Seq<char>)
    ensures
        gathered(Seq::empty()) is None,
        gathered(seq![log]) == Some(log),
        logs.len() > 0 ==> gathered(logs) is Some && gathered(logs.push(log)) == Some(
            gathered(logs)->Some_0 + "\n"@ + log,
        ),
{
    text::law_joining(logs, "\n"@, log);
}

/// The output of a Job that is done holds every log that was fetched: the log
/// itself where there is one, and all of them, each as a whole, where there are
/// more. It has no logs exactly where none was fetched.
pub proof fn law_no_log_is_lost(
    runner: k8s::RunnerView,
    job_name: Seq<char>,
    status: Option<JobStatus>,
    pods: Seq<Option<Seq<char>>>,
    fetched: Seq<Option<Seq<char>>>,
)
    requires
        is_done(status),
        fetched.len() == present(pods).len(),
    ensures
        ({
            let step = output_run(
                output_start(runner, job_name),
                seq![OutputReplyView::Job(status), OutputReplyView::Pods(pods)] + logs_replies(
                    fetched,
                ),
            );
            let output = step->Finished_0->Ok_0;
            &&& step is Finished && step->Finished_0 is Ok
            &&& output.phase == phase_of(status)
            &&& output.succeeded == has_succeeded(status)
            &&& forall|i: int|
                0 <= i < fetched.len() && (#[trigger] fetched[i]) is Some ==> output.logs is Some
                    && text::contains_text(output.logs->Some_0, fetched[i]->Some_0)
            &&& fetched.len() == 1 ==> output.logs == fetched[0]
            &&& output.logs is None <==> forall|i: int|
                0 <= i < fetched.len() ==> (#[trigger] fetched[i]) is None
        }),
{
    law_output_gathers_all_logs(job_name, runner.namespace, status, pods, fetched);
    let logs = present(fetched);
    assert forall|i: int| 0 <= i < fetched.len() && (#[trigger] fetched[i]) is Some implies gathered(
        logs,
    ) is Some && text::contains_text(gathered(logs)->Some_0, fetched[i]->Some_0) by {
        let at = lemma_present_holds(fetched, i);
        text::lemma_joined_holds_each(logs, "\n"@, at);
    }
    if forall|i: int| 0 <= i < fetched.len() ==> (#[trigger] fetched[i]) is None {
        lemma_none_present(fetched);
    }
    if fetched.len() == 1 {
        assert(fetched =~= Seq::empty().push(fetched[0]));
        lemma_present_push(Seq::empty(), fetched[0]);
        if fetched[0] is Some {
            assert(logs =~= seq![fetched[0]->Some_0]);
            law_logs_grow_pod_by_pod(Seq::empty(), fetched[0]->Some_0);
        }
    }
}

/// After `n` replies about logs, the pod asked next is the one at place `n`.
proof fn lemma_fetch_in_order(
    phase: Seq<char>,
    succeeded: bool,
    namespace: Seq<char>,
    pods: Seq<Seq<char>>,
    logs: Seq<Seq<char>>,
    fetched: Seq<Option<Seq<char>>>,
)
    requires
        fetched.len() < pods.len(),
    ensures
        ({
            let step = output_run(
                fetch_next(phase, succeeded, namespace, pods, logs),
                logs_replies(fetched),
            );
            &&& step is FetchLogs
            &&& step->pod == pods[fetched.len() as int]
            &&& step->container == k8s::HELM_CONTAINER@
            &&& step->FetchLogs_namespace == namespace
        }),
    decreases fetched.len(),
{
    if fetched.len() > 0 {
        let replies = logs_replies(fetched);
        let more = match fetched.first() {
            Some(text) => logs.push(text),
            None => logs,
        };
        assert(replies.first() == logs_reply(fetched.first()));
        assert(replies.drop_first() =~= logs_replies(fetched.drop_first()));
        lemma_fetch_in_order(
            phase,
            succeeded,
            namespace,
            pods.drop_first(),
            more,
            fetched.drop_first(),
        );
    }
}

/// Every pod that has a name is asked for its logs, one after the other in the
/// order of the list, in the runner's namespace and for the container `helm`;
/// a pod whose logs cannot be had does not stop this.
pub proof fn law_every_pod_is_asked_in_order(
    runner: k8s::RunnerView,
    job_name: Seq<char>,
    status: Option<JobStatus>,
    pods: Seq<Option<Seq<char>>>,
    fetched: Seq<Option<Seq<char>>>,
)
    requires
        is_done(status),
        fetched.len() < present(pods).len(),
    ensures
        ({
            let step = output_run(
                output_start(runner, job_name),
                seq![OutputReplyView::Job(status), OutputReplyView::Pods(pods)] + logs_replies(
                    fetched,
                ),
            );
            &&& step is FetchLogs
            &&& step->pod == present(pods)[fetched.len() as int]
            &&& step->container == "helm"@
            &&& step->FetchLogs_namespace == runner.namespace
        }),
{
    let start = output_start(runner, job_name);
    let replies = seq![OutputReplyView::Job(status), OutputReplyView::Pods(pods)] + logs_replies(
        fetched,
    );
    let second = output_next(start, replies[0]);
    let third = output_next(second, replies[1]);
    assert(replies.drop_first().first() == replies[1]);
    assert(replies.drop_first().drop_first() =~= logs_replies(fetched));
    assert(output_run(start, replies) == output_run(second, replies.drop_first()));
    assert(output_run(second, replies.drop_first()) == output_run(third, logs_replies(fetched)));
    lemma_fetch_in_order(
        phase_of(status),
        has_succeeded(status),
        runner.namespace,
        present(pods),
        Seq::empty(),
        fetched,
    );
}

/// A look begins with the Job itself, in the runner's namespace. A Job that
/// cannot be had is reported with its name and the namespace.
pub proof fn law_missing_job_is_named(runner: k8s::RunnerView, job_name: Seq<char>)
    ensures
        output_start(runner, job_name) == (OutputStepView::GetJob {
            job_name,
            namespace: runner.namespace,
        }),
        ({
            let step = output_next(output_start(runner, job_name), OutputReplyView::NoJob);
            let message = step->Finished_0->Err_0;
            let end = " not found in namespace "@ + runner.namespace;
            &&& step is Finished && step->Finished_0 is Err
            &&& message.len() == 4 + job_name.len() + end.len()
            &&& message.take(4) == seq!['j', 'o', 'b', ' ']
            &&& text::occurs_at(message, job_name, 4)
            &&& end.is_suffix_of(message)
        }),
{
    reveal_strlit("job ");
    let step = output_next(output_start(runner, job_name), OutputReplyView::NoJob);
    let message = step->Finished_0->Err_0;
    let end = " not found in namespace "@ + runner.namespace;
    assert(message.take(4) =~= seq!['j', 'o', 'b', ' ']);
    assert(message.subrange(4, 4 + job_name.len() as int) =~= job_name);
    assert(end =~= message.subrange(message.len() - end.len(), message.len() as int));
}

/// A look at a Job ends a wait, or is followed by a pause of three seconds. An
/// unfinished Job is waited for while there is time, and no longer: then the
/// message names the Job and the whole seconds of the timeout.
pub proof fn law_wait_decides_by_phase_and_time(
    job_name: Seq<char>,
    seconds: nat,
    nanos: nat,
    output: JobOutputView,
    message: Seq<char>,
    elapsed_nanos: nat,
)
    requires
        nanos < 1_000_000_000,
    ensures
        ({
            let timeout_nanos = seconds * 1_000_000_000 + nanos;
            let wait = WaitView { job_name, timeout_nanos };
            let found = wait_next(wait, PollView { result: Ok(output), elapsed_nanos });
            let lost = wait_next(wait, PollView { result: Err(message), elapsed_nanos });
            &&& lost == WaitStepView::Finished(Err(message))
            &&& if output.phase == "Succeeded"@ || output.phase == "Failed"@ {
                found == WaitStepView::Finished(Ok(output))
            } else if elapsed_nanos < timeout_nanos {
                found == (WaitStepView::Sleep { seconds: 3 })
            } else {
                found == WaitStepView::Finished(
                    Err(
                        "job "@ + job_name + " did not complete within "@ + text::decimal(seconds)
                            + "s"@,
                    ),
                )
            }
        }),
{
    let timeout_nanos = seconds * 1_000_000_000 + nanos;
    assert(timeout_nanos / 1_000_000_000 == seconds) by (nonlinear_arith)
        requires
            timeout_nanos == seconds * 1_000_000_000 + nanos,
            nanos < 1_000_000_000,
    ;
}

} // verus!
