use rancher_helm_mcp::rancher::{
    after_send, Cluster, HttpMethod, HttpSettings, RancherCall, RancherClient, ReplyStep,
};

fn client(base_url: &str) -> RancherClient {
    RancherClient::new(base_url.to_string(), "test-token".to_string(), true)
}

fn kubeconfig_call(cluster_id: &str) -> RancherCall {
    RancherCall::GenerateKubeconfig { cluster_id: cluster_id.to_string() }
}

fn refused(call: &RancherCall, status: u16, body: &str) -> String {
    match after_send(Some(status)) {
        ReplyStep::ReadText { status } => call.after_text(status, Some(body.to_string())),
        _ => panic!("{status} should be a refusal"),
    }
}

#[test]
fn list_clusters_returns_error_on_non_200() {
    let msg = refused(&RancherCall::ListClusters, 401, "Unauthorized");
    assert!(msg.contains("401"), "error: {msg}");
    assert!(msg.contains("Unauthorized"), "error: {msg}");
}

#[test]
fn generate_kubeconfig_returns_error_on_non_200() {
    let msg = refused(&kubeconfig_call("missing"), 404, "Not Found");
    assert!(msg.contains("404"), "error: {msg}");
    assert!(msg.contains("missing"), "error: {msg}");
}

#[test]
fn generate_kubeconfig_includes_cluster_id_in_error() {
    let err = refused(&kubeconfig_call("c-m-gone"), 403, "Forbidden");
    assert!(err.contains("c-m-gone"), "error should mention cluster id: {err}");
}

#[test]
fn refusals_read_exactly() {
    assert_eq!(
        refused(&RancherCall::ListClusters, 401, "no token"),
        "Rancher returned 401 Unauthorized listing clusters: no token"
    );
    assert_eq!(
        refused(&kubeconfig_call("c-m-gone"), 404, "gone"),
        "Rancher returned 404 Not Found generating kubeconfig for c-m-gone: gone"
    );
}

#[test]
fn refusal_without_a_readable_body_has_an_empty_one() {
    assert_eq!(
        RancherCall::ListClusters.after_text(500, None),
        "Rancher returned 500 Internal Server Error listing clusters: "
    );
}

#[test]
fn refusal_with_an_unnamed_status_still_reads() {
    assert_eq!(
        RancherCall::ListClusters.after_text(999, Some("odd".to_string())),
        "Rancher returned 999 <unknown status code> listing clusters: odd"
    );
    assert!(RancherCall::ListClusters.after_text(100, None).contains("100 Continue"));
}

#[test]
fn only_two_hundreds_are_parsed() {
    assert!(matches!(after_send(Some(200)), ReplyStep::ParseBody));
    assert!(matches!(after_send(Some(299)), ReplyStep::ParseBody));
    assert!(matches!(after_send(Some(199)), ReplyStep::ReadText { status: 199 }));
    assert!(matches!(after_send(Some(300)), ReplyStep::ReadText { status: 300 }));
}

#[test]
fn no_reply_is_reported() {
    match after_send(None) {
        ReplyStep::Failed(message) => assert_eq!(message, "failed to reach Rancher"),
        _ => panic!("there is nothing to read"),
    }
}

#[test]
fn parsed_bodies_are_handed_on() {
    assert_eq!(
        kubeconfig_call("c-m-abc123").after_parse(Some("apiVersion: v1".to_string())),
        Ok("apiVersion: v1".to_string())
    );
}

#[test]
fn unparsable_bodies_are_reported() {
    assert_eq!(
        RancherCall::ListClusters.after_parse::<u8>(None),
        Err("failed to parse clusters response".to_string())
    );
    assert_eq!(
        kubeconfig_call("c-1").after_parse::<u8>(None),
        Err("failed to parse generateKubeconfig response".to_string())
    );
}

#[test]
fn requests_carry_method_url_and_token() {
    let listing = client("https://rancher.example.com").list_clusters();
    assert_eq!(listing.method, HttpMethod::Get);
    assert_eq!(listing.url, "https://rancher.example.com/v3/clusters");
    assert_eq!(listing.bearer_token, "test-token");
    let asking = client("https://rancher.example.com").generate_kubeconfig("c-m-abc123");
    assert_eq!(asking.method, HttpMethod::Post);
    assert_eq!(
        asking.url,
        "https://rancher.example.com/v3/clusters/c-m-abc123?action=generateKubeconfig"
    );
    assert_eq!(asking.bearer_token, "test-token");
}

#[test]
fn trailing_slashes_make_no_difference() {
    let plain = client("https://rancher.example.com");
    let slashed = client("https://rancher.example.com///");
    assert_eq!(plain.list_clusters().url, slashed.list_clusters().url);
    assert_eq!(
        plain.generate_kubeconfig("local").url,
        slashed.generate_kubeconfig("local").url
    );
    assert_eq!(client("///").list_clusters().url, "/v3/clusters");
}

#[test]
fn certificates_are_checked_unless_turned_off() {
    assert_eq!(
        client("https://r").http_settings(),
        HttpSettings { timeout_seconds: 30, accept_invalid_certs: false }
    );
    let lax = RancherClient::new("https://r".to_string(), "t".to_string(), false);
    assert_eq!(
        lax.http_settings(),
        HttpSettings { timeout_seconds: 30, accept_invalid_certs: true }
    );
}

#[test]
fn cloned_clusters_are_the_same() {
    let cluster = Cluster {
        id: "c-m-abc123".to_string(),
        name: "prod".to_string(),
        description: Some("Production cluster".to_string()),
        state: None,
    };
    let copy = cluster.clone();
    assert_eq!(copy.id, "c-m-abc123");
    assert_eq!(copy.name, "prod");
    assert_eq!(copy.description.as_deref(), Some("Production cluster"));
    assert!(copy.state.is_none());
}

#[test]
fn calls_send_their_requests() {
    let client = client("https://rancher.example.com/");
    let listing = RancherCall::ListClusters.request(&client);
    assert_eq!(listing.method, HttpMethod::Get);
    assert_eq!(listing.url, "https://rancher.example.com/v3/clusters");
    assert_eq!(listing.bearer_token, "test-token");
    let asking = kubeconfig_call("c-m-gone").request(&client);
    assert_eq!(asking.method, HttpMethod::Post);
    assert_eq!(
        asking.url,
        "https://rancher.example.com/v3/clusters/c-m-gone?action=generateKubeconfig"
    );
    assert_eq!(asking.bearer_token, "test-token");
}
