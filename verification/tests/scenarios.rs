use starail::json::parse_json;
use starail::mihomo_core::versions_match;
use starail::runtime::is_geodata_download_error;
use starail::status::selected_proxy_from_json;
use starail::subscription::{is_unsupported_client_response, normalize_subscription_bytes};
use starail::system_proxy::remove_block_text;
use starail::util::{profile_name_ok, slug_from_url};

#[test]
fn matches_release_tag_in_core_version_output() {
    assert!(versions_match("Mihomo Meta v1.19.4 linux amd64", "v1.19.4"));
}

#[test]
fn detects_different_core_version() {
    assert!(!versions_match("Mihomo Meta v1.19.3 linux amd64", "v1.19.4"));
}

#[test]
fn recognizes_geodata_download_failures() {
    let message = "can't initial GeoIP: can't download MMDB: Get https://github.com/MetaCubeX/meta-rules-dat/releases/download/latest/geoip.metadb: context deadline exceeded";

    assert!(is_geodata_download_error(message));
}

#[test]
fn leaves_unrelated_validation_errors_alone() {
    assert!(!is_geodata_download_error("yaml: unmarshal errors"));
}

#[test]
fn selected_proxy_reports_group_and_node() {
    let json = parse_json(
        r#"{"proxies": {"Auto": {"all": ["A", "B"], "now": "B"}, "A": {"type": "VLESS"}, "B": {"type": "Hysteria2"}}}"#,
    )
    .expect("json");

    assert_eq!(
        selected_proxy_from_json(&json, &Vec::new()).as_deref(),
        Some("Auto -> B")
    );
}

#[test]
fn selected_proxy_ignores_global_when_real_group_exists() {
    let json = parse_json(
        r#"{"proxies": {"Other": {"all": ["B"], "now": "B"}, "GLOBAL": {"all": ["DIRECT"], "now": "DIRECT"}}}"#,
    )
    .expect("json");

    assert_eq!(
        selected_proxy_from_json(&json, &Vec::new()).as_deref(),
        Some("Other -> B")
    );
}

#[test]
fn selected_proxy_follows_active_profile_group_order() {
    let json = parse_json(
        r#"{"proxies": {"Auto": {"all": ["A", "B"], "now": "B"}, "Manual": {"all": ["C", "D"], "now": "D"}, "GLOBAL": {"all": ["DIRECT"], "now": "DIRECT"}}}"#,
    )
    .expect("json");
    let preferred = vec!["Manual".to_string(), "Auto".to_string()];

    assert_eq!(
        selected_proxy_from_json(&json, &preferred).as_deref(),
        Some("Manual -> D (+1 groups)")
    );
}

#[test]
fn selected_proxy_summarizes_extra_real_groups() {
    let json = parse_json(
        r#"{"proxies": {"Proxy": {"all": ["A"], "now": "A"}, "Auto": {"all": ["B"], "now": "B"}, "GLOBAL": {"all": ["DIRECT"], "now": "DIRECT"}}}"#,
    )
    .expect("json");

    assert_eq!(
        selected_proxy_from_json(&json, &Vec::new()).as_deref(),
        Some("Proxy -> A (+1 groups)")
    );
}

#[test]
fn decodes_base64_wrapped_yaml_subscription() {
    let normalized = normalize_subscription_bytes("https://example.test/sub", b"cHJveGllczoK")
        .expect("base64 yaml should decode");

    assert_eq!(normalized.bytes, b"proxies:\n");
    assert_eq!(normalized.format, "base64-wrapped Clash/Mihomo YAML");
}

#[test]
fn rejects_base64_proxy_link_lists() {
    let error = match normalize_subscription_bytes("https://example.test/sub", b"c3M6Ly9leGFtcGxlCg==") {
        Ok(_) => panic!("proxy-link list should be rejected"),
        Err(error) => error,
    };

    assert!(error.contains("base64 proxy-link list"));
}

#[test]
fn detects_provider_unsupported_client_messages() {
    assert!(is_unsupported_client_response(
        "当前Clash客户端不支持本机场协议，请更换以下支持协议的代理软件".as_bytes()
    ));
}

#[test]
fn removes_only_starail_block() {
    let text = "before\n# >>> starail proxy >>>\nexport http_proxy=\"x\"\n# <<< starail proxy <<<\nafter\n";
    assert_eq!(remove_block_text(text), "before\nafter\n");
}

#[test]
fn validates_profile_names() {
    assert!(profile_name_ok("hk-main_01"));
    assert!(profile_name_ok("work.profile"));
    assert!(!profile_name_ok(""));
    assert!(!profile_name_ok("../bad"));
    assert!(!profile_name_ok("bad name"));
}

#[test]
fn slugs_subscription_urls() {
    assert_eq!(
        slug_from_url("https://example.com/sub/path.yaml?token=secret"),
        "example.com-path.yaml"
    );
}
