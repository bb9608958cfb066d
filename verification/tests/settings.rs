use rancher_helm_mcp::config::{listen_address, parse_port, Config, Environment, Transport};
use rancher_helm_mcp::string_map::StringMap;
use rancher_helm_mcp::text::{decimal_text, join};

fn environment() -> Environment {
    Environment {
        rancher_url: Some("https://rancher.example.com".to_string()),
        rancher_token: Some("token-xxxxx:yyyyyy".to_string()),
        rancher_tls_verify: None,
        job_namespace: None,
        service_account_namespace: None,
        helm_image: None,
        port: None,
    }
}

fn config(env: Environment) -> Config {
    match Config::from_environment(env) {
        Ok(config) => config,
        Err(message) => panic!("{message}"),
    }
}

fn missing(env: Environment) -> String {
    match Config::from_environment(env) {
        Ok(_) => panic!("something is missing"),
        Err(message) => message,
    }
}

#[test]
fn defaults_fill_in() {
    let config = config(environment());
    assert_eq!(config.rancher_url, "https://rancher.example.com");
    assert_eq!(config.rancher_token, "token-xxxxx:yyyyyy");
    assert!(config.tls_verify);
    assert_eq!(config.job_namespace, "default");
    assert_eq!(config.helm_image, "alpine/helm:3");
    assert_eq!(config.transport, Transport::Stdio);
}

#[test]
fn variables_win_over_defaults() {
    let mut env = environment();
    env.job_namespace = Some("jobs".to_string());
    env.service_account_namespace = Some("pod".to_string());
    env.helm_image = Some("alpine/helm:3.17.0".to_string());
    env.port = Some("3000".to_string());
    let config = config(env);
    assert_eq!(config.job_namespace, "jobs");
    assert_eq!(config.helm_image, "alpine/helm:3.17.0");
    assert_eq!(config.transport, Transport::Http { port: 3000 });
}

#[test]
fn service_account_namespace_comes_second() {
    let mut env = environment();
    env.service_account_namespace = Some("pod".to_string());
    assert_eq!(config(env).job_namespace, "pod");
}

#[test]
fn url_and_token_are_required() {
    let mut env = environment();
    env.rancher_url = None;
    assert_eq!(missing(env), "RANCHER_URL environment variable is required");
    let mut env = environment();
    env.rancher_token = None;
    assert_eq!(missing(env), "RANCHER_TOKEN environment variable is required");
    let mut env = environment();
    env.rancher_url = None;
    env.rancher_token = None;
    assert_eq!(missing(env), "RANCHER_URL environment variable is required");
}

#[test]
fn tls_verification_is_turned_off_by_two_words() {
    let verify = |text: &str| {
        let mut env = environment();
        env.rancher_tls_verify = Some(text.to_string());
        config(env).tls_verify
    };
    assert!(!verify("false"));
    assert!(!verify("0"));
    assert!(verify("true"));
    assert!(verify("False"));
    assert!(verify("no"));
    assert!(verify(""));
}

#[test]
fn ports_are_decimal_numbers_of_sixteen_bits() {
    assert_eq!(parse_port("0"), Some(0));
    assert_eq!(parse_port("8080"), Some(8080));
    assert_eq!(parse_port("+80"), Some(80));
    assert_eq!(parse_port("0080"), Some(80));
    assert_eq!(parse_port("65535"), Some(65535));
    assert_eq!(parse_port("65536"), None);
    assert_eq!(parse_port("99999999999999999999"), None);
    assert_eq!(parse_port(""), None);
    assert_eq!(parse_port("+"), None);
    assert_eq!(parse_port("++1"), None);
    assert_eq!(parse_port("-1"), None);
    assert_eq!(parse_port(" 80"), None);
    assert_eq!(parse_port("80a"), None);
    assert_eq!(parse_port("\u{663}"), None);
}

#[test]
fn ports_read_as_the_standard_library_reads_them() {
    for text in ["1", "00001", "+0", "6553", "655350", "0x10", "1_0", "+65535", "+65536", "\n1"] {
        assert_eq!(parse_port(text), text.parse::<u16>().ok(), "port: {text:?}");
    }
}

#[test]
fn unusable_port_means_stdio() {
    let mut env = environment();
    env.port = Some("http".to_string());
    assert_eq!(config(env).transport, Transport::Stdio);
}

#[test]
fn every_written_port_reads_back() {
    for port in [0u16, 9, 10, 99, 100, 3000, 65535] {
        assert_eq!(parse_port(&decimal_text(port as u128)), Some(port));
    }
}

#[test]
fn listen_address_is_on_every_interface() {
    assert_eq!(listen_address(3000), "0.0.0.0:3000");
    assert_eq!(listen_address(0), "0.0.0.0:0");
}

#[test]
fn numbers_are_written_in_decimal() {
    assert_eq!(decimal_text(0), "0");
    assert_eq!(decimal_text(1234567890), "1234567890");
    assert_eq!(decimal_text(u128::MAX), u128::MAX.to_string());
}

#[test]
fn texts_are_joined_between_neighbours() {
    let texts = |parts: &[&str]| parts.iter().map(|p| p.to_string()).collect::<Vec<String>>();
    assert_eq!(join(&texts(&[]), "\n"), "");
    assert_eq!(join(&texts(&["a"]), "\n"), "a");
    assert_eq!(join(&texts(&["a", "", "b"]), "\n"), "a\n\nb");
}

#[test]
fn later_values_replace_earlier_ones() {
    let map = StringMap::new()
        .with("a", "1".to_string())
        .with("b", "2".to_string())
        .with("a", "3".to_string());
    let mut entries = map.entries().clone();
    entries.sort();
    assert_eq!(
        entries,
        vec![("a".to_string(), "3".to_string()), ("b".to_string(), "2".to_string())]
    );
}
