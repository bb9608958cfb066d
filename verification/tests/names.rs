use rancher_helm_mcp::names::{job_name, job_suffix, sanitize_k8s_name, secret_name};

#[test]
fn sanitize_lowercases_uppercase() {
    assert_eq!(sanitize_k8s_name("MyApp"), "myapp");
}

#[test]
fn sanitize_replaces_special_chars_with_hyphens() {
    assert_eq!(sanitize_k8s_name("my_app.v2"), "my-app-v2");
}

#[test]
fn sanitize_replaces_spaces_with_hyphens() {
    assert_eq!(sanitize_k8s_name("my app"), "my-app");
}

#[test]
fn sanitize_strips_leading_and_trailing_hyphens() {
    assert_eq!(sanitize_k8s_name("---foo---"), "foo");
}

#[test]
fn sanitize_truncates_at_40_chars() {
    let long = "a".repeat(60);
    let result = sanitize_k8s_name(&long);
    assert_eq!(result.len(), 40);
    assert_eq!(result, "a".repeat(40));
}

#[test]
fn sanitize_preserves_already_clean_names() {
    assert_eq!(sanitize_k8s_name("nginx"), "nginx");
    assert_eq!(sanitize_k8s_name("my-release-123"), "my-release-123");
}

#[test]
fn sanitize_handles_numbers_and_dots() {
    assert_eq!(sanitize_k8s_name("v1.2.3"), "v1-2-3");
}

#[test]
fn sanitize_of_nothing_usable_is_empty() {
    assert_eq!(sanitize_k8s_name(""), "");
    assert_eq!(sanitize_k8s_name("___"), "");
}

#[test]
fn sanitize_replaces_each_non_ascii_char_by_one_hyphen() {
    assert_eq!(sanitize_k8s_name("caf\u{e9}s"), "caf-s");
    assert_eq!(sanitize_k8s_name("\u{c4}pfel"), "pfel");
}

#[test]
fn sanitize_leaves_no_hyphen_where_it_cuts() {
    let name = format!("{}-b", "a".repeat(39));
    assert_eq!(sanitize_k8s_name(&name), "a".repeat(39));
    let gap = format!("{}_._{}", "a".repeat(37), "b".repeat(10));
    assert_eq!(sanitize_k8s_name(&gap), "a".repeat(37));
    let inner = format!("{}-b", "a".repeat(38));
    assert_eq!(sanitize_k8s_name(&inner), inner);
}

#[test]
fn sanitize_trims_before_it_cuts() {
    let padded = format!("--{}--", "a".repeat(40));
    assert_eq!(sanitize_k8s_name(&padded), "a".repeat(40));
}

#[test]
fn sanitizing_twice_changes_nothing() {
    let once = sanitize_k8s_name("My Release_1");
    assert_eq!(once, "my-release-1");
    assert_eq!(sanitize_k8s_name(&once), once);
    let cut = sanitize_k8s_name(&format!("{}-b", "a".repeat(39)));
    assert_eq!(sanitize_k8s_name(&cut), cut);
}

#[test]
fn sanitize_ignores_case() {
    assert_eq!(sanitize_k8s_name("GraFana"), sanitize_k8s_name("grAfaNA"));
}

#[test]
fn suffix_is_the_first_group_of_a_uuid() {
    assert_eq!(job_suffix("a3f2b1c0-1111-4222-8333-444455556666"), "a3f2b1c0");
}

#[test]
fn suffix_passes_over_hyphens() {
    assert_eq!(job_suffix("ab-cd-ef-0123456"), "abcdef01");
    assert_eq!(job_suffix("ab-c"), "abc");
}

#[test]
fn object_names_are_put_together() {
    let name = job_name("install", "prometheus", "a3f2b1c0");
    assert_eq!(name, "helm-install-prometheus-a3f2b1c0");
    assert_eq!(secret_name(&name), "helm-install-prometheus-a3f2b1c0-creds");
}

#[test]
fn longest_job_name_is_a_label() {
    let name = job_name("install", &sanitize_k8s_name(&"x".repeat(100)), "0123abcd");
    assert_eq!(name.len(), 62);
    assert!(name.chars().all(|c| c.is_ascii_lowercase() || c.is_ascii_digit() || c == '-'));
}

#[test]
fn different_suffixes_give_different_names() {
    let first = job_suffix("a3f2b1c0-1111-4222-8333-444455556666");
    let second = job_suffix("a3f2b1c1-1111-4222-8333-444455556666");
    assert_ne!(job_name("list", "x", &first), job_name("list", "x", &second));
}
