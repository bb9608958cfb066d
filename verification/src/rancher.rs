//! The Rancher API: which requests are sent, and what their replies mean.
use vstd::prelude::*;
use vstd::string::StringExecFns;

use crate::text;

verus! {

/// A cluster that Rancher manages.
#[derive(Debug)]
pub struct Cluster {
    pub id: String,
    pub name: String,
    pub description: Option<String>,
    pub state: Option<String>,
}

/// What a [`Cluster`] holds.
pub struct ClusterView {
    pub id: Seq<char>,
    pub name: Seq<char>,
    pub description: Option<Seq<char>>,
    pub state: Option<Seq<char>>,
}

impl View for Cluster {
    type V = ClusterView;

    open spec fn view(&self) -> ClusterView {
        ClusterView {
            id: self.id@,
            name: self.name@,
            description: self.description.deep_view(),
            state: self.state.deep_view(),
        }
    }
}

impl Clone for Cluster {
    fn clone(&self) -> (r: Self)
        ensures
            r@ == self@,
    {
        Cluster {
            id: self.id.clone(),
            name: self.name.clone(),
            description: self.description.clone(),
            state: self.state.clone(),
        }
    }
}

impl DeepView for Cluster {
    type V = ClusterView;

    open spec fn deep_view(&self) -> ClusterView {
        self@
    }
}

// ---- Requests -------------------------------------------------------------
/// The method of a request.
#[derive(Debug, Clone, Copy, PartialEq, Eq, Structural)]
pub enum HttpMethod {
    Get,
    Post,
}

/// A request to Rancher, without a body.
pub struct HttpRequest {
    pub method: HttpMethod,
    pub url: String,
    pub bearer_token: String,
}

/// What an [`HttpRequest`] holds.
pub struct HttpRequestView {
    pub method: HttpMethod,
    pub url: Seq<char>,
    pub bearer_token: Seq<char>,
}

impl View for HttpRequest {
    type V = HttpRequestView;

    open spec fn view(&self) -> HttpRequestView {
        HttpRequestView {
            method: self.method,
            url: self.url@,
            bearer_token: self.bearer_token@,
        }
    }
}

/// How requests are carried.
#[derive(Debug, Clone, Copy, PartialEq, Eq, Structural)]
pub struct HttpSettings {
    pub timeout_seconds: u64,
    pub accept_invalid_certs: bool,
}

/// The Rancher server to talk to, and the right to do so.
pub struct RancherClient {
    base_url: String,
    token: String,
    tls_verify: bool,
}

/// What a [`RancherClient`] holds.
pub struct RancherClientView {
    pub base_url: Seq<char>,
    pub token: Seq<char>,
    pub tls_verify: bool,
}

impl View for RancherClient {
    type V = RancherClientView;

    closed spec fn view(&self) -> RancherClientView {
        RancherClientView {
            base_url: self.base_url@,
            token: self.token@,
            tls_verify: self.tls_verify,
        }
    }
}

/// The client for a server; slashes at the end of the base URL are dropped.
pub open spec fn client_of(
    base_url: Seq<char>,
    token: Seq<char>,
    tls_verify: bool,
) -> RancherClientView {
    RancherClientView { base_url: text::trim_end(base_url, '/'), token, tls_verify }
}

/// The request for the list of clusters.
pub open spec fn clusters_request(client: RancherClientView) -> HttpRequestView {
    HttpRequestView {
        method: HttpMethod::Get,
        url: client.base_url + "/v3/clusters"@,
        bearer_token: client.token,
    }
}

/// The request for a kubeconfig of a cluster.
pub open spec fn kubeconfig_request(
    client: RancherClientView,
    cluster_id: Seq<char>,
) -> HttpRequestView {
    HttpRequestView {
        method: HttpMethod::Post,
        url: client.base_url + "/v3/clusters/"@ + cluster_id + "?action=generateKubeconfig"@,
        bearer_token: client.token,
    }
}

/// How the requests of a client are carried.
pub open spec fn settings_of(client: RancherClientView) -> HttpSettings {
    HttpSettings { timeout_seconds: 30, accept_invalid_certs: !client.tls_verify }
}

impl RancherClient {
    /// A client for the server at `base_url`.
    pub fn new(base_url: String, token: String, tls_verify: bool) -> (r: Self)
        ensures
            r@ == client_of(base_url@, token@, tls_verify),
    {
        let chars = text::without_trailing(text::chars_of(base_url.as_str()), '/');
        RancherClient { base_url: text::string_of(&chars), token, tls_verify }
    }

    /// How the requests of this client are carried: within 30 seconds, and
    /// with certificates that do not verify only where verification is off.
    pub fn http_settings(&self) -> (r: HttpSettings)
        ensures
            r == (HttpSettings {
                timeout_seconds: 30,
                accept_invalid_certs: !self@.tls_verify,
            }),
            r == settings_of(self@),
    {
        HttpSettings { timeout_seconds: 30, accept_invalid_certs: !self.tls_verify }
    }

    /// The request for the list of clusters.
    pub fn list_clusters(&self) -> (r: HttpRequest)
        ensures
            r@ == clusters_request(self@),
    {
        HttpRequest {
            method: HttpMethod::Get,
            url: self.base_url.clone().concat("/v3/clusters"),
            bearer_token: self.token.clone(),
        }
    }

    /// The request for a kubeconfig of a cluster.
    pub fn generate_kubeconfig(&self, cluster_id: &str) -> (r: HttpRequest)
        ensures
            r@ == kubeconfig_request(self@, cluster_id@),
    {
        HttpRequest {
            method: HttpMethod::Post,
            url: self.base_url.clone().concat("/v3/clusters/").concat(cluster_id).concat(
                "?action=generateKubeconfig",
            ),
            bearer_token: self.token.clone(),
        }
    }
}

// ---- Replies --------------------------------------------------------------
/// What to do with the reply to a request.
pub enum ReplyStep {
    /// The request succeeded: parse the body.
    ParseBody,
    /// The request was refused: read the body as text.
    ReadText { status: u16 },
    /// There is no reply; the message says so.
    Failed(String),
}

/// What a [`ReplyStep`] holds.
pub enum ReplyStepView {
    ParseBody,
    ReadText { status: u16 },
    Failed(Seq<char>),
}

impl View for ReplyStep {
    type V = ReplyStepView;

    open spec fn view(&self) -> ReplyStepView {
        match self {
            ReplyStep::ParseBody => ReplyStepView::ParseBody,
            ReplyStep::ReadText { status } => ReplyStepView::ReadText { status: *status },
            ReplyStep::Failed(message) => ReplyStepView::Failed(message@),
        }
    }
}

/// What was asked of Rancher.
pub enum RancherCall {
    ListClusters,
    GenerateKubeconfig { cluster_id: String },
}

/// What a [`RancherCall`] holds.
pub enum RancherCallView {
    ListClusters,
    GenerateKubeconfig { cluster_id: Seq<char> },
}

impl View for RancherCall {
    type V = RancherCallView;

    open spec fn view(&self) -> RancherCallView {
        match self {
            RancherCall::ListClusters => RancherCallView::ListClusters,
            RancherCall::GenerateKubeconfig { cluster_id } => RancherCallView::GenerateKubeconfig {
                cluster_id: cluster_id@,
            },
        }
    }
}

/// The words that HTTP has for a status code, as `http::StatusCode` gives
/// them: the canonical reason, or its placeholder for a code without one.
pub uninterp spec fn status_reason(status: u16) -> Seq<char>;

/// A status as text: the code, a space and the reason.
pub open spec fn status_display(status: u16) -> Seq<char> {
    text::decimal(status as nat) + " "@ + status_reason(status)
}

/// Trusted: the text that `to_string` gives of the `reqwest::StatusCode` which
/// `from_u16` makes of `status`. Claims that it is the code in decimal, a
/// space and the reason for the code, which [`status_reason`] names.
/// `from_u16` takes codes of three digits only.
#[verifier::external_body]
fn status_text(status: u16) -> (r: String)
    requires
        100 <= status <= 999,
    ensures
        r@ == text::decimal(status as nat) + " "@ + status_reason(status),
{
    reqwest::StatusCode::from_u16(status).unwrap().to_string()
}

/// A status of success.
pub open spec fn is_success(status: u16) -> bool {
    200 <= status < 300
}

/// What to do once a request was sent; `status` is that of the reply, if one
/// came.
pub open spec fn reply_step(status: Option<u16>) -> ReplyStepView {
    match status {
        Some(status) => if is_success(status) {
            ReplyStepView::ParseBody
        } else {
            ReplyStepView::ReadText { status }
        },
        None => ReplyStepView::Failed("failed to reach Rancher"@),
    }
}

/// Decides what to do once a request was sent.
pub fn after_send(status: Option<u16>) -> (r: ReplyStep)
    ensures
        r@ == reply_step(status),
{
    match status {
        Some(status) => if 200 <= status && status < 300 {
            ReplyStep::ParseBody
        } else {
            ReplyStep::ReadText { status }
        },
        None => ReplyStep::Failed("failed to reach Rancher".to_string()),
    }
}

/// What the call was about, for the message of a refusal.
pub open spec fn refused_subject(call: RancherCallView) -> Seq<char> {
    match call {
        RancherCallView::ListClusters => " listing clusters: "@,
        RancherCallView::GenerateKubeconfig { cluster_id } => " generating kubeconfig for "@
            + cluster_id + ": "@,
    }
}

/// The request that a call sends.
pub open spec fn request_of(call: RancherCallView, client: RancherClientView) -> HttpRequestView {
    match call {
        RancherCallView::ListClusters => clusters_request(client),
        RancherCallView::GenerateKubeconfig { cluster_id } => kubeconfig_request(
            client,
            cluster_id,
        ),
    }
}

/// The message of a refusal that reads as `status`.
pub open spec fn refusal_message(
    call: RancherCallView,
    status: Seq<char>,
    body: Seq<char>,
) -> Seq<char> {
    "Rancher returned "@ + status + refused_subject(call) + body
}

/// The message for a body that cannot be parsed.
pub open spec fn unparsable_message(call: RancherCallView) -> Seq<char> {
    match call {
        RancherCallView::ListClusters => "failed to parse clusters response"@,
        RancherCallView::GenerateKubeconfig { .. } => "failed to parse generateKubeconfig response"@,
    }
}

/// The body of a refusal; one that cannot be read counts as empty.
pub open spec fn body_text(body: Option<String>) -> Seq<char> {
    match body {
        Some(text) => text@,
        None => Seq::empty(),
    }
}

impl RancherCall {
    /// The request that this call sends.
    pub fn request(&self, client: &RancherClient) -> (r: HttpRequest)
        ensures
            r@ == request_of(self@, client@),
    {
        match self {
            RancherCall::ListClusters => client.list_clusters(),
            RancherCall::GenerateKubeconfig { cluster_id } => client.generate_kubeconfig(
                cluster_id.as_str(),
            ),
        }
    }

    /// The message of a refusal whose status reads as `status`.
    pub fn refusal(&self, status: &str, body: &str) -> (r: String)
        ensures
            r@ == refusal_message(self@, status@, body@),
    {
        let subject = match self {
            RancherCall::ListClusters => " listing clusters: ".to_string(),
            RancherCall::GenerateKubeconfig { cluster_id } => {
                " generating kubeconfig for ".to_string().concat(cluster_id.as_str()).concat(": ")
            },
        };
        "Rancher returned ".to_string().concat(status).concat(subject.as_str()).concat(body)
    }

    /// The message of a refusal with this status; a body that cannot be read
    /// counts as empty. HTTP has status codes of three digits only.
    pub fn after_text(&self, status: u16, body: Option<String>) -> (r: String)
        requires
            100 <= status <= 999,
        ensures
            r@ == refusal_message(self@, status_display(status), body_text(body)),
    {
        let text = match body {
            Some(text) => text,
            None => String::new(),
        };
        self.refusal(status_text(status).as_str(), text.as_str())
    }

    /// The outcome of a request that succeeded: what the body holds, or the
    /// message that it cannot be parsed.
    pub fn after_parse<T>(&self, parsed: Option<T>) -> (r: Result<T, String>)
        ensures
            match parsed {
                Some(payload) => r == Ok::<T, String>(payload),
                None => r matches Err(message) && message@ == unparsable_message(self@),
            },
    {
        match parsed {
            Some(payload) => Ok(payload),
            None => match self {
                RancherCall::ListClusters => Err("failed to parse clusters response".to_string()),
                RancherCall::GenerateKubeconfig { .. } => Err(
                    "failed to parse generateKubeconfig response".to_string(),
                ),
            },
        }
    }
}

// ---- Laws -----------------------------------------------------------------
/// The message of a refusal holds the status code, the body and, for a
/// kubeconfig, the cluster's ID.
pub proof fn law_refusal_names_status_and_cluster(
    call: RancherCallView,
    status: u16,
    body: Seq<char>,
)
    ensures
        ({
            let message = refusal_message(call, status_display(status), body);
            &&& text::contains_text(message, text::decimal(status as nat))
            &&& text::contains_text(message, body)
            &&& call matches RancherCallView::GenerateKubeconfig { cluster_id }
                ==> text::contains_text(message, cluster_id)
        }),
{
    let code = text::decimal(status as nat);
    let shown = status_display(status);
    let message = refusal_message(call, shown, body);
    let before = "Rancher returned "@;
    let subject = refused_subject(call);
    text::lemma_contains_middle(before, code, " "@ + status_reason(status) + subject + body);
    assert(message =~= before + code + (" "@ + status_reason(status) + subject + body));
    text::lemma_contains_middle(before + shown + subject, body, Seq::empty());
    assert(message =~= before + shown + subject + body + Seq::<char>::empty());
    if let RancherCallView::GenerateKubeconfig { cluster_id } = call {
        let head = before + shown + " generating kubeconfig for "@;
        text::lemma_contains_middle(head, cluster_id, ": "@ + body);
        assert(message =~= head + cluster_id + (": "@ + body));
    }
}

/// Another slash at the end of the base URL changes no request.
pub proof fn law_trailing_slashes_do_not_matter(
    base_url: Seq<char>,
    token: Seq<char>,
    tls_verify: bool,
    cluster_id: Seq<char>,
)
    ensures
        ({
            let plain = client_of(base_url, token, tls_verify);
            let slashed = client_of(base_url.push('/'), token, tls_verify);
            &&& clusters_request(slashed) == clusters_request(plain)
            &&& kubeconfig_request(slashed, cluster_id) == kubeconfig_request(plain, cluster_id)
        }),
{
    assert(base_url.push('/').drop_last() =~= base_url);
}

/// Any number of slashes more or fewer at the end of the base URL changes no
/// request.
pub proof fn law_any_trailing_slashes_do_not_matter(
    base_url: Seq<char>,
    slashes: nat,
    token: Seq<char>,
    tls_verify: bool,
    cluster_id: Seq<char>,
)
    ensures
        ({
            let plain = client_of(base_url, token, tls_verify);
            let slashed = client_of(
                base_url + Seq::new(slashes, |i: int| '/'),
                token,
                tls_verify,
            );
            &&& clusters_request(slashed) == clusters_request(plain)
            &&& kubeconfig_request(slashed, cluster_id) == kubeconfig_request(plain, cluster_id)
        }),
    decreases slashes,
{
    let run = Seq::new(slashes, |i: int| '/');
    if slashes == 0 {
        assert(base_url + run =~= base_url);
    } else {
        let fewer = (slashes - 1) as nat;
        let shorter = base_url + Seq::new(fewer, |i: int| '/');
        law_any_trailing_slashes_do_not_matter(base_url, fewer, token, tls_verify, cluster_id);
        law_trailing_slashes_do_not_matter(shorter, token, tls_verify, cluster_id);
        assert(shorter.push('/') =~= base_url + run);
    }
}

/// The base URL of a client does not end in a slash, so that no URL holds a
/// double slash where the path begins.
pub proof fn law_base_url_has_no_trailing_slash(
    base_url: Seq<char>,
    token: Seq<char>,
    tls_verify: bool,
)
    ensures
        ({
            let base = client_of(base_url, token, tls_verify).base_url;
            base.len() > 0 ==> base.last() != '/'
        }),
{
    text::lemma_trim_end(base_url, '/');
}

/// The base URL that was given is that of the client with slashes behind, and
/// nothing but slashes; the token and the setting for certificates are kept.
pub proof fn law_client_drops_nothing_but_slashes(
    base_url: Seq<char>,
    token: Seq<char>,
    tls_verify: bool,
)
    ensures
        ({
            let client = client_of(base_url, token, tls_verify);
            &&& client.base_url.is_prefix_of(base_url)
            &&& forall|i: int|
                client.base_url.len() <= i < base_url.len() ==> #[trigger] base_url[i] == '/'
            &&& client.base_url.len() > 0 ==> client.base_url.last() != '/'
            &&& client.token == token
            &&& client.tls_verify == tls_verify
        }),
{
    text::lemma_trim_end(base_url, '/');
}

/// Every request goes to the client's server with the client's token. The
/// clusters are read at `/v3/clusters`; a kubeconfig is asked for below that,
/// at the ID of its cluster, by the action `generateKubeconfig`.
pub proof fn law_requests_go_to_the_server(client: RancherClientView, cluster_id: Seq<char>)
    ensures
        ({
            let listing = request_of(RancherCallView::ListClusters, client);
            let asking = request_of(RancherCallView::GenerateKubeconfig { cluster_id }, client);
            &&& listing == clusters_request(client)
            &&& asking == kubeconfig_request(client, cluster_id)
            &&& listing.method == HttpMethod::Get
            &&& listing.url == client.base_url + "/v3/clusters"@
            &&& listing.bearer_token == client.token
            &&& asking.method == HttpMethod::Post
            &&& asking.url == listing.url + "/"@ + cluster_id + "?action=generateKubeconfig"@
            &&& asking.bearer_token == client.token
        }),
{
    reveal_strlit("/v3/clusters");
    reveal_strlit("/v3/clusters/");
    reveal_strlit("/");
    assert("/v3/clusters"@ + "/"@ =~= "/v3/clusters/"@);
    assert(kubeconfig_request(client, cluster_id).url =~= client.base_url + "/v3/clusters"@
        + "/"@ + cluster_id + "?action=generateKubeconfig"@);
}

/// Requests time out after half a minute, and certificates that do not verify
/// are taken exactly where verification was turned off.
pub proof fn law_certificates_are_checked_as_asked(
    base_url: Seq<char>,
    token: Seq<char>,
    tls_verify: bool,
)
    ensures
        settings_of(client_of(base_url, token, tls_verify)).timeout_seconds == 30,
        settings_of(client_of(base_url, token, tls_verify)).accept_invalid_certs != tls_verify,
{
}

/// The body is parsed exactly for the statuses from 200 to 299; for any other
/// status it is read as text, and a missing reply is reported.
pub proof fn law_only_success_is_parsed(status: u16)
    ensures
        reply_step(Some(status)) is ParseBody <==> 200 <= status <= 299,
        !(200 <= status <= 299) ==> reply_step(Some(status)) == (ReplyStepView::ReadText {
            status,
        }),
        reply_step(None) == ReplyStepView::Failed("failed to reach Rancher"@),
{
}

/// The message of a refusal begins with the status and ends with the body; what
/// was asked for stands between, with the cluster's ID for a kubeconfig.
pub proof fn law_refusals_say_what_was_asked(
    cluster_id: Seq<char>,
    status: u16,
    body: Option<String>,
)
    ensures
        ({
            let text = match body {
                Some(text) => text@,
                None => Seq::empty(),
            };
            let head = "Rancher returned "@ + (text::decimal(status as nat) + " "@
                + status_reason(status));
            let listing = refusal_message(
                RancherCallView::ListClusters,
                status_display(status),
                body_text(body),
            );
            let asking = refusal_message(
                RancherCallView::GenerateKubeconfig { cluster_id },
                status_display(status),
                body_text(body),
            );
            &&& listing == head + " listing clusters: "@ + text
            &&& asking == head + " generating kubeconfig for "@ + cluster_id + ": "@ + text
        }),
{
    let head = "Rancher returned "@ + status_display(status);
    let asking = refusal_message(
        RancherCallView::GenerateKubeconfig { cluster_id },
        status_display(status),
        body_text(body),
    );
    assert(asking =~= head + " generating kubeconfig for "@ + cluster_id + ": "@ + body_text(body));
}

/// A body that cannot be parsed is reported by what was asked for.
pub proof fn law_unparsable_bodies_are_told_apart(cluster_id: Seq<char>)
    ensures
        unparsable_message(RancherCallView::ListClusters) == "failed to parse clusters response"@,
        unparsable_message(RancherCallView::GenerateKubeconfig { cluster_id })
            == "failed to parse generateKubeconfig response"@,
{
}

} // verus!
