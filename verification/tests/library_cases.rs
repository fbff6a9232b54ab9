use std::io::Write;

use starail::base64::decode_base64;
use starail::paths::{first_executable, path_candidates};
use starail::subscription::{fetch_step, FetchState, FetchStep};
use starail::config::AppConfig;
use starail::controller::{
    delay_request_timeout_secs, ensure_controller_value, mode_body, proxy_path, response_value_of,
    select_body,
};
use starail::i18n::{detect_from, Language, Message};
use starail::json::parse_json;
use starail::mihomo_core::{
    architecture_patterns, core_version_line, describe, find_core, install_report, require_core,
    select_core_asset, versions_match, Release, ReleaseAsset,
};
use starail::platform::require_linux;
use starail::profile::{
    active_after_removal, list, parse_meta, profile_list_lines, profile_name_of_file, render_meta,
    ProfileKind, ProfileMeta,
};
use starail::proxy::{
    check_select_args, check_test_profile, delay_label, node_names, test_outcome, test_result_line,
};
use starail::runtime::{
    parse_port, pid_file_text, pid_from_text, runtime_config_text, stop_after_check,
    strip_runtime_keys, tail_text, top_level_value, validation_hint, StopAction,
};
use starail::status::{
    controller_state_from_configs, controller_status, preferred_proxy_groups, process_description,
};
use starail::subscription::{
    decode_base64_text, fetch_failure_message, judge_subscription_response, looks_like_yaml_config,
    normalize_subscription_bytes, subscription_profile_name, subscription_profile_names,
    subscription_user_agents, update_source, ResponseVerdict,
};
use starail::system_proxy::{bashrc_with_block, block_present_in, remove_block_text};
use starail::tui::node_test::{
    begin_test, cancel_test, finish_test, is_proxy_test_cancel_key, record_result,
};
use starail::tui::output::{command_output_lines, command_preview, running_hint};
use starail::tui::pages::{
    scroll_down_by, scroll_up_by, wrap_next, wrap_previous, NodeTestStatus, ProxyGroupPage,
    ProxyItem,
};
use starail::tui::state::{App, Effect, KeyCode, KeyInput, Need, Screen};
use starail::util::{profile_name_ok, slug_from_url, slug_from_url_at};
use starail::width::{empty_as_dash, pad_left_display_width, take_display_width};
use starail::yaml::parse_yaml;

fn strings(items: &[&str]) -> Vec<String> {
    items.iter().map(|item| item.to_string()).collect()
}

fn key(code: KeyCode) -> KeyInput {
    KeyInput {
        code,
        ctrl: false,
        alt: false,
    }
}

#[test]
fn pid_file_reads_back_the_written_pid() {
    assert_eq!(pid_file_text(4242), "4242\n");
    assert_eq!(pid_from_text(&pid_file_text(4242)), Some(4242));
    assert_eq!(pid_from_text(&pid_file_text(0)), Some(0));
    assert_eq!(pid_from_text(" 17 \nrest"), Some(17));
    assert_eq!(pid_from_text("pid"), None);
    assert_eq!(pid_from_text(""), None);
}

#[test]
fn list_moves_undo_each_other() {
    assert_eq!(wrap_next(4, 5), 0);
    assert_eq!(wrap_previous(0, 5), 4);
    for s in 0..5 {
        assert_eq!(wrap_previous(wrap_next(s, 5), 5), s);
        assert_eq!(wrap_next(wrap_previous(s, 5), 5), s);
    }
    let mut s = 2;
    for _ in 0..5 {
        s = wrap_next(s, 5);
    }
    assert_eq!(s, 2);
}

#[test]
fn scrolling_stays_in_the_text() {
    assert_eq!(scroll_down_by(0, 12, 5), 4);
    assert_eq!(scroll_down_by(2, 1, 5), 3);
    assert_eq!(scroll_down_by(0, 1, 0), 0);
    assert_eq!(scroll_up_by(3, 12), 0);
    assert_eq!(scroll_up_by(5, 2), 3);
    assert_eq!(scroll_up_by(scroll_down_by(1, 2, 10), 2), 1);
}

#[test]
fn stopping_checks_then_kills() {
    assert_eq!(stop_after_check(1, false), StopAction::Stopped);
    assert_eq!(stop_after_check(1, true), StopAction::Recheck);
    assert_eq!(stop_after_check(9, true), StopAction::Recheck);
    assert_eq!(stop_after_check(10, true), StopAction::Kill);
    assert_eq!(stop_after_check(10, false), StopAction::Stopped);
}

fn asset(name: &str, url: &str) -> ReleaseAsset {
    ReleaseAsset {
        name: name.to_string(),
        browser_download_url: url.to_string(),
    }
}

#[test]
fn chosen_core_asset_fits_the_first_matching_pattern() {
    let release = Release {
        tag_name: "v1.19.4".to_string(),
        assets: vec![
            asset("mihomo-linux-amd64-go120-v1.19.4.gz", "https://x/go120.gz"),
            asset("mihomo-linux-amd64-v1.19.4.gz", "https://x/amd64.gz"),
            asset("mihomo-linux-amd64-compatible-v1.19.4.deb", "https://x/compat.deb"),
            asset("mihomo-linux-amd64-compatible-v1.19.4.gz", "https://x/compat.gz"),
        ],
    };
    let patterns = architecture_patterns("x86_64").expect("x86_64 is supported");
    assert_eq!(patterns, ["linux-amd64-compatible", "linux-amd64"]);
    let chosen = select_core_asset(&release, &patterns).expect("an asset fits");
    assert_eq!(chosen.release_version, "v1.19.4");
    assert_eq!(chosen.url, "https://x/compat.gz");

    let arm = architecture_patterns("aarch64").expect("aarch64 is supported");
    assert_eq!(arm, ["linux-arm64"]);
    match select_core_asset(&release, &arm) {
        Ok(_) => panic!("no arm64 asset exists"),
        Err(error) => assert_eq!(
            error,
            "could not find a linux mihomo .gz asset for this architecture in the latest release"
        ),
    }
}

#[test]
fn architecture_patterns_cover_known_machines() {
    assert_eq!(architecture_patterns("armv7l").expect("armv7"), ["linux-armv7"]);
    assert_eq!(architecture_patterns("i686").expect("386"), ["linux-386"]);
    assert_eq!(
        architecture_patterns("sparc64").expect_err("sparc64 is unsupported"),
        "unsupported CPU architecture for automatic core install: sparc64"
    );
}

#[test]
fn release_tag_matches_itself() {
    assert!(versions_match("v1.19.4", "v1.19.4"));
    assert!(versions_match("  V1.19.4 ", "v1.19.4"));
    assert!(!versions_match("Mihomo Meta v1.19.4", "v"));
}

#[test]
fn core_version_line_takes_the_first_filled_line() {
    assert_eq!(
        core_version_line("\n  Mihomo Meta v1.19.4 \nsecond\n", "").as_deref(),
        Some("Mihomo Meta v1.19.4")
    );
    assert_eq!(core_version_line("  ", "err line\n").as_deref(), Some("err line"));
    assert_eq!(core_version_line("", ""), None);
}

#[test]
fn install_report_skips_an_up_to_date_core() {
    let english = Language::English;
    let (lines, download) =
        install_report(english, Some("Mihomo Meta v1.19.4 linux"), "v1.19.4");
    assert!(!download);
    assert_eq!(
        lines,
        [
            format!(
                "{} Mihomo Meta v1.19.4 linux",
                english.tr(Message::InstalledMihomoCoreLabel)
            ),
            format!("{} v1.19.4", english.tr(Message::LatestMihomoReleaseLabel)),
            english.tr(Message::MihomoCoreUpToDate).to_string(),
        ]
    );

    let (lines, download) = install_report(english, Some("v1.19.3"), "v1.19.4");
    assert!(download);
    assert_eq!(
        lines[2],
        format!(
            "{}: v1.19.3 -> v1.19.4.",
            english.tr(Message::UpdatingMihomoCore)
        )
    );

    let (lines, download) = install_report(english, None, "v1.19.4");
    assert!(download);
    assert_eq!(
        lines,
        [format!(
            "{} v1.19.4.",
            english.tr(Message::ManagedCoreMissingInstalling)
        )]
    );
}

#[test]
fn core_lookup_prefers_the_managed_core() {
    assert_eq!(
        find_core("/h/bin/mihomo", true, Some("/usr/bin/mihomo")).as_deref(),
        Some("/h/bin/mihomo")
    );
    assert_eq!(
        find_core("/h/bin/mihomo", false, Some("/usr/bin/mihomo")).as_deref(),
        Some("/usr/bin/mihomo")
    );
    assert_eq!(find_core("/h/bin/mihomo", false, None), None);
    assert_eq!(
        require_core(None, "/h/bin/mihomo").expect_err("no core"),
        "mihomo core is missing. Run 'starail core install' first. Expected managed core: /h/bin/mihomo"
    );
    assert_eq!(describe(None), "missing");
    assert_eq!(describe(Some("/usr/bin/mihomo")), "/usr/bin/mihomo");
}

fn blank_config() -> AppConfig {
    AppConfig {
        active_profile: Some("  ".to_string()),
        mixed_port: 7891,
        controller_address: " ".to_string(),
        controller_secret: Some(String::new()),
        latency_test_url: String::new(),
        latency_test_timeout: 0,
        shell_proxy_enabled: true,
        language: Some(" ZH ".to_string()),
    }
}

#[test]
fn normalizing_twice_changes_nothing_more() {
    let once = blank_config().normalized();
    assert_eq!(once.active_profile, None);
    assert_eq!(once.mixed_port, 7891);
    assert_eq!(once.controller_address, "127.0.0.1:9090");
    assert_eq!(once.controller_secret, None);
    assert_eq!(once.latency_test_url, "https://www.gstatic.com/generate_204");
    assert_eq!(once.latency_test_timeout, 5000);
    assert!(once.shell_proxy_enabled);
    assert_eq!(once.language.as_deref(), Some("zh-CN"));

    let twice = once.normalized();
    assert_eq!(twice.active_profile, once.active_profile);
    assert_eq!(twice.controller_address, once.controller_address);
    assert_eq!(twice.controller_secret, once.controller_secret);
    assert_eq!(twice.latency_test_url, once.latency_test_url);
    assert_eq!(twice.latency_test_timeout, once.latency_test_timeout);
    assert_eq!(twice.language, once.language);
    assert_eq!(once.controller_base(), "http://127.0.0.1:9090");
}

#[test]
fn language_codes_name_their_language() {
    for language in Language::all() {
        assert_eq!(Language::from_code(language.code()), Some(language));
    }
    assert_eq!(Language::from_code("klingon"), None);
    assert_eq!(
        detect_from(Some("xx"), Some("zh_CN.UTF-8")),
        Language::SimplifiedChinese
    );
    assert_eq!(detect_from(Some("en"), Some("zh_CN.UTF-8")), Language::English);
    assert_eq!(detect_from(None, None), Language::English);
}

#[test]
fn shell_proxy_block_comes_off_as_it_went_on() {
    let text = "alias ll='ls -l'\nexport PATH=$PATH:/x\n";
    let with = bashrc_with_block(text, 7890);
    assert!(block_present_in(&with));
    assert!(with.contains("export http_proxy=\"http://127.0.0.1:7890\""));
    assert_eq!(remove_block_text(&with), remove_block_text(text));
    assert_eq!(remove_block_text(text), text);
    assert!(!block_present_in(&remove_block_text(&with)));
    assert_eq!(remove_block_text(""), "");
    assert!(bashrc_with_block("no newline", 1).starts_with("no newline\n# >>> starail proxy >>>\n"));
}

#[test]
fn profile_metadata_reads_back_as_written() {
    let meta = ProfileMeta {
        name: "work".to_string(),
        kind: ProfileKind::Subscription,
        source_url: Some("https://example.test/sub".to_string()),
        updated_at: "1700000000".to_string(),
    };
    let text = render_meta(&meta);
    assert_eq!(
        text,
        "name=work\ntype=subscription\nsource_url=https://example.test/sub\nupdated_at=1700000000\n"
    );
    let read = parse_meta("work", &text);
    assert_eq!(read.name, meta.name);
    assert_eq!(read.kind, meta.kind);
    assert_eq!(read.source_url, meta.source_url);
    assert_eq!(read.updated_at, meta.updated_at);

    let local = ProfileMeta {
        name: "home".to_string(),
        kind: ProfileKind::Local,
        source_url: None,
        updated_at: String::new(),
    };
    let read = parse_meta("home", &render_meta(&local));
    assert_eq!(read.kind, ProfileKind::Local);
    assert_eq!(read.source_url, None);
    assert_eq!(read.updated_at, "");

    let fallback = parse_meta("file-name", "type=unknown\nname=\n");
    assert_eq!(fallback.name, "file-name");
    assert_eq!(fallback.kind, ProfileKind::Local);
}

#[test]
fn slugs_are_valid_profile_names() {
    for url in [
        "https://example.com/sub/path.yaml?token=secret",
        "http://a b.c/d e",
        "https://例子.测试/订阅",
        "ftp://",
    ] {
        assert!(profile_name_ok(&slug_from_url_at(url, 7)), "{url}");
    }
    assert_eq!(slug_from_url_at("https://", 42), "subscription-42");
    assert_eq!(
        slug_from_url_at("https://example.com/sub/a.yaml?x=1", 5),
        "example.com-a.yaml"
    );
    assert_eq!(slug_from_url_at("https://example.com/", 5), "example.com");
}

#[test]
fn slug_without_a_name_uses_the_clock() {
    let slug = slug_from_url("https://");
    let seconds: u64 = slug
        .strip_prefix("subscription-")
        .expect("derived name")
        .parse()
        .expect("seconds");
    assert!(seconds > 1_600_000_000);
}

#[test]
fn runtime_config_keeps_the_profile_port_and_sets_the_controller() {
    let mut config = AppConfig::default();
    config.controller_secret = Some("s\"x".to_string());
    let text = "mixed-port: 7891\nexternal-controller: 0.0.0.0:9090\nsecret: abc\nproxies: []\n";
    let (rendered, port) = runtime_config_text(text, "p.yaml", &config).expect("valid profile");
    assert_eq!(port, 7891);
    assert_eq!(
        rendered,
        "mixed-port: 7891\nproxies: []\n\n# Starail runtime settings\nexternal-controller: 127.0.0.1:9090\nsecret: \"s\\\"x\"\n"
    );

    let (rendered, port) =
        runtime_config_text("proxies: []", "p.yaml", &AppConfig::default()).expect("valid");
    assert_eq!(port, 7890);
    assert_eq!(
        rendered,
        "proxies: []\n\n# Starail runtime settings\nmixed-port: 7890\nexternal-controller: 127.0.0.1:9090\nsecret: \"\"\n"
    );

    assert_eq!(
        runtime_config_text("mixed-port: abc\n", "p.yaml", &config).expect_err("bad port"),
        "invalid mixed-port in p.yaml: expected a numeric TCP port, got 'abc': invalid digit found in string"
    );
}

#[test]
fn port_parsing_reports_std_errors() {
    assert_eq!(parse_port("7890"), Ok(7890));
    assert_eq!(
        parse_port("70000").expect_err("too large"),
        "expected a numeric TCP port, got '70000': number too large to fit in target type"
    );
    assert_eq!(
        parse_port("").expect_err("empty"),
        "expected a numeric TCP port, got '': cannot parse integer from empty string"
    );
}

#[test]
fn top_level_keys_skip_comments_and_indented_lines() {
    let text = "  mixed-port: 1\n# mixed-port: 2\nmixed-port: \"7892\"\n";
    assert_eq!(top_level_value(text, "mixed-port").as_deref(), Some("7892"));
    assert_eq!(top_level_value("# mixed-port: 1\n", "mixed-port"), None);
    assert_eq!(
        strip_runtime_keys("a: 1\nsecret: x\n  secret: y\nexternal-controller: z\n"),
        "a: 1\n  secret: y"
    );
}

#[test]
fn validation_hint_explains_missing_geodata() {
    assert_eq!(validation_hint("/h", "yaml: bad"), "yaml: bad");
    let hinted = validation_hint("/h", "can't initial GeoIP: can't download MMDB");
    assert!(hinted.starts_with("can't initial GeoIP: can't download MMDB\n\nStarail note:"));
    assert!(hinted.contains("(-d /h)"));
}

#[test]
fn tail_keeps_the_last_lines() {
    assert_eq!(tail_text("a\nb\nc\n", 2), "b\nc\n");
    assert_eq!(tail_text("a\nb", 5), "a\nb\n");
    assert_eq!(tail_text("a\nb", 0), "");
    assert_eq!(tail_text("", 5), "");
}

#[test]
fn platform_must_be_linux() {
    assert_eq!(require_linux("linux"), Ok(()));
    assert!(require_linux("macos").is_err());
}

#[test]
fn subscription_names_and_sources() {
    assert_eq!(
        subscription_profile_name("  ", None, 0).expect_err("blank url"),
        "usage: starail subscribe add <url> [name]"
    );
    assert_eq!(
        subscription_profile_name("https://example.com/sub/a.yaml", Some("  "), 5).expect("slug"),
        "example.com-a.yaml"
    );
    assert_eq!(
        subscription_profile_name("https://example.com/", Some("main"), 5).expect("given"),
        "main"
    );
    assert_eq!(
        subscription_profile_name("https://example.com/", Some("bad name"), 5).expect_err("bad"),
        "invalid profile name 'bad name'. Use letters, numbers, dot, dash, or underscore."
    );

    let mut meta = ProfileMeta {
        name: "work".to_string(),
        kind: ProfileKind::Local,
        source_url: Some("https://example.test/sub".to_string()),
        updated_at: String::new(),
    };
    assert_eq!(
        update_source("work", &meta).expect_err("local"),
        "profile 'work' is not subscription-backed."
    );
    meta.kind = ProfileKind::Subscription;
    assert_eq!(update_source("work", &meta).expect("url"), "https://example.test/sub");
    meta.source_url = Some(" ".to_string());
    assert_eq!(
        update_source("work", &meta).expect_err("blank"),
        "profile 'work' does not have a saved subscription URL"
    );
}

#[test]
fn subscription_fetch_failures_name_the_cause() {
    let rejected = strings(&["mihomo", "Mihomo"]);
    assert_eq!(
        fetch_failure_message("u", &rejected, Some("e".to_string())),
        "subscription provider rejected all compatible client profiles tried by Starail: mihomo, Mihomo. The subscription likely contains protocols such as hysteria2 or VLESS. Use the provider's Mihomo/Clash.Meta subscription URL or format flag, then try again."
    );
    assert_eq!(fetch_failure_message("u", &Vec::new(), Some("e".to_string())), "e");
    assert_eq!(
        fetch_failure_message("u", &Vec::new(), None),
        "subscription did not return a usable Clash/Mihomo YAML config: u"
    );
    assert_eq!(
        subscription_user_agents("1.2.3"),
        [
            "mihomo",
            "Mihomo",
            "Clash.Meta",
            "clash.meta",
            "ClashforWindows/0.20.39 starail/1.2.3"
        ]
    );
}

#[test]
fn subscription_responses_are_judged() {
    match judge_subscription_response("u", b"") {
        ResponseVerdict::Failed(error) => assert_eq!(error, "subscription download was empty: u"),
        other => panic!("unexpected {other:?}"),
    }
    assert!(matches!(
        judge_subscription_response("u", "client does not support this".as_bytes()),
        ResponseVerdict::Rejected
    ));
    match judge_subscription_response("u", b"proxies:\n") {
        ResponseVerdict::Usable(normalized) => {
            assert_eq!(normalized.bytes, b"proxies:\n");
            assert_eq!(normalized.format, "Clash/Mihomo YAML");
        }
        other => panic!("unexpected {other:?}"),
    }
    match judge_subscription_response("u", b"c3M6Ly9leGFtcGxlCg==") {
        ResponseVerdict::WrongFormat(error) => assert!(error.contains("base64 proxy-link list")),
        other => panic!("unexpected {other:?}"),
    }
}

#[test]
fn undecodable_bytes_stay_raw() {
    let bytes = [0xff, 0xfe, b'p'];
    assert!(!looks_like_yaml_config(&bytes));
    assert!(looks_like_yaml_config(b"proxies:\n"));
    let normalized = normalize_subscription_bytes("u", &bytes).expect("raw");
    assert_eq!(normalized.bytes, bytes);
    assert_eq!(normalized.format, "raw response");
}

#[test]
fn base64_text_decodes() {
    assert_eq!(decode_base64_text("cHJv\neGllczoK").as_deref(), Some("proxies:\n"));
    assert_eq!(decode_base64_text("!!"), None);
    assert_eq!(decode_base64_text("  "), None);
    assert_eq!(decode_base64(b"YWJj"), Some(b"abc".to_vec()));
    assert_eq!(decode_base64(b"YQ=="), Some(b"a".to_vec()));
}

#[test]
fn controller_bodies_are_json() {
    assert_eq!(mode_body("rule"), r#"{"mode":"rule"}"#);
    assert_eq!(select_body("香港 \"01\""), r#"{"name":"香港 \"01\""}"#);
    assert_eq!(proxy_path("节点 A/B"), "/proxies/%E8%8A%82%E7%82%B9%20A%2FB");
    assert_eq!(delay_request_timeout_secs(5000), 10);
    assert_eq!(delay_request_timeout_secs(u64::MAX), u64::MAX / 1000 + 5);
}

#[test]
fn controller_answers_are_read() {
    let value = response_value_of(false, r#"{"mode":"rule"}"#).expect("json");
    assert_eq!(value.str_field("mode"), Some("rule"));
    assert!(response_value_of(true, "ignored").expect("no content").is_null());
    assert!(response_value_of(false, "  ").expect("blank").is_null());
    let error = response_value_of(false, "not json").expect_err("bad json");
    assert!(error.starts_with("failed to parse controller JSON response: "));
    assert!(error.contains("expected"));
    assert!(parse_json("{").is_err());
    assert_eq!(
        ensure_controller_value(response_value_of(true, "").expect("null")).expect_err("null"),
        "mihomo controller returned an empty response"
    );
    assert!(parse_yaml("a: [1, 2").is_err());
}

#[test]
fn proxy_nodes_and_results() {
    let json = parse_json(
        r#"{"proxies": {"Auto": {"all": ["B", "A"], "now": "B"}, "DIRECT": {}, "B": {"type": "VLESS"}, "A": {"type": "Trojan"}}}"#,
    )
    .expect("json");
    assert_eq!(node_names(&json), ["A", "B"]);

    let delay = parse_json(r#"{"delay": 123}"#).expect("json");
    assert_eq!(delay_label(&delay, "ok"), "123ms");
    assert_eq!(delay_label(&parse_json("{}").expect("json"), "ok"), "ok");

    assert_eq!(
        test_result_line(1, 2, "node", &Ok("12ms".to_string()), 34),
        format!("[1/2] {:<48} {:>8}  finished=34ms", "node", "12ms")
    );
    assert_eq!(
        test_result_line(2, 2, "n", &Err("timeout".to_string()), 5),
        format!("[2/2] {:<48} {:>8}  finished=5ms  timeout", "n", "failed")
    );
    assert_eq!(
        check_select_args(" ", "n").expect_err("blank group"),
        "usage: starail proxy select <group> <node>"
    );
    assert_eq!(check_select_args("g", "n"), Ok(()));
    assert_eq!(
        check_test_profile("w", ProfileKind::Local).expect_err("local"),
        "proxy test is scoped to the active subscription-backed profile. Active profile 'w' is type 'local'."
    );
    assert_eq!(test_outcome(true), Ok(()));
    assert_eq!(test_outcome(false).expect_err("all failed"), "all proxy delay tests failed");
}

#[test]
fn profiles_are_listed_by_name() {
    assert_eq!(profile_name_of_file("work.yaml").as_deref(), Some("work"));
    assert_eq!(profile_name_of_file("a.b.yaml").as_deref(), Some("a.b"));
    assert_eq!(profile_name_of_file(".yaml"), None);
    assert_eq!(profile_name_of_file("work.yml"), None);

    let meta = ProfileMeta {
        name: "a".to_string(),
        kind: ProfileKind::Subscription,
        source_url: Some("https://x/sub".to_string()),
        updated_at: String::new(),
    };
    let profiles = list(
        vec![("b".to_string(), None), ("a".to_string(), Some(meta))],
        Some("b"),
    );
    assert_eq!(profiles.len(), 2);
    assert_eq!(profiles[0].name, "a");
    assert_eq!(profiles[0].kind, ProfileKind::Subscription);
    assert!(!profiles[0].active);
    assert_eq!(profiles[1].name, "b");
    assert_eq!(profiles[1].kind, ProfileKind::Local);
    assert!(profiles[1].active);

    let lines = profile_list_lines(&profiles, Some("b"));
    assert_eq!(
        lines,
        [
            "Active profile: b".to_string(),
            format!("{:<2} {:<28} {:<14} SOURCE", "", "NAME", "TYPE"),
            format!("{:<2} {:<28} {:<14} {}", "", "a", "subscription", "https://x/sub"),
            format!("{:<2} {:<28} {:<14} {}", "*", "b", "local", ""),
        ]
    );
    assert_eq!(subscription_profile_names(&profiles), ["a"]);
    assert_eq!(
        profile_list_lines(&Vec::new(), None)[2],
        "No profiles yet. Add one with 'starail subscribe add <url>' or 'starail profile add <name> <config>'."
    );

    assert_eq!(active_after_removal(Some("a"), "a"), (None, true));
    assert_eq!(
        active_after_removal(Some("b"), "a"),
        (Some("b".to_string()), false)
    );
    assert_eq!(active_after_removal(None, "a"), (None, false));
}

#[test]
fn status_pieces() {
    assert_eq!(
        controller_status(None, None, &Vec::new()),
        (
            "unreachable".to_string(),
            "unavailable".to_string(),
            "unavailable".to_string(),
            "unavailable".to_string()
        )
    );
    let configs = parse_json(r#"{"mode": "rule"}"#).expect("json");
    assert_eq!(controller_state_from_configs(&configs), "reachable (mode: rule)");
    assert_eq!(
        controller_state_from_configs(&parse_json("{}").expect("json")),
        "reachable"
    );
    assert_eq!(process_description(Some(42)), "running (pid 42)");
    assert_eq!(process_description(None), "stopped");

    let profile = "proxy-groups:\n  - name: A\n    type: select\n  - name: B\n";
    assert_eq!(preferred_proxy_groups("p", Some(profile)), ["A", "B"]);
    assert!(preferred_proxy_groups("none", Some(profile)).is_empty());
    assert!(preferred_proxy_groups("p", Some("[")).is_empty());
    assert!(preferred_proxy_groups("p", None).is_empty());
}

#[test]
fn home_keys_move_and_ask_for_work() {
    let mut app = App::new(Language::English);
    assert_eq!(app.selected(), 0);
    assert!(matches!(app.screen(), Screen::Home));
    assert!(matches!(app.handle_key(key(KeyCode::Char('j'))), Effect::Nothing));
    assert_eq!(app.selected(), 1);
    assert!(matches!(
        app.handle_key(key(KeyCode::Enter)),
        Effect::Need(Need::ProfileList)
    ));
    app.on_profiles(Ok(Vec::new()));
    assert!(matches!(app.screen(), Screen::Profiles(_)));
    assert!(matches!(app.handle_key(key(KeyCode::Esc)), Effect::Nothing));
    assert!(matches!(app.screen(), Screen::Home));
    assert!(matches!(app.handle_key(key(KeyCode::Char('k'))), Effect::Nothing));
    assert_eq!(app.selected(), 0);
    let quit = KeyInput {
        code: KeyCode::Char('c'),
        ctrl: true,
        alt: false,
    };
    assert!(matches!(app.handle_key(quit), Effect::Quit));
}

#[test]
fn a_cancelled_test_leaves_no_node_under_test() {
    let group = ProxyItem {
        name: "Auto".to_string(),
        kind: "select".to_string(),
        children: strings(&["A", "B"]),
    };
    let mut page = ProxyGroupPage {
        group,
        selected: 0,
        back_items: Vec::new(),
        back_selected: 0,
        node_results: vec![NodeTestStatus::Untested, NodeTestStatus::Untested],
        message: String::new(),
    };
    let english = Language::English;
    let mut progress = begin_test(&mut page, english, "https://t", 500).expect("two nodes");
    assert_eq!(progress.total, 2);
    assert!(page.node_results.iter().all(NodeTestStatus::is_testing));
    record_result(&mut page, &mut progress, 0, Some("12ms".to_string()), english);
    assert_eq!(progress.finished, 1);
    assert_eq!(progress.ok, 1);
    assert!(matches!(&page.node_results[0], NodeTestStatus::Measured(d) if d == "12ms"));
    assert!(page.node_results[1].is_testing());
    cancel_test(&mut page, english);
    assert!(!page.node_results.iter().any(NodeTestStatus::is_testing));
    assert!(matches!(&page.node_results[1], NodeTestStatus::Untested));

    record_result(&mut page, &mut progress, 1, None, english);
    finish_test(&mut page, &progress, english);
    assert!(matches!(&page.node_results[1], NodeTestStatus::Failed));
    assert_eq!(page.message, "Finished testing 2/2 nodes; 1 ok.");

    let escape = key(KeyCode::Esc);
    assert!(is_proxy_test_cancel_key(escape));
    assert!(!is_proxy_test_cancel_key(key(KeyCode::Char('x'))));
}

#[test]
fn command_output_is_laid_out() {
    let english = Language::English;
    let args = strings(&["start"]);
    assert_eq!(
        command_output_lines(&args, false, "exit status: 1", "out\n", "err\n", english),
        [
            format!(
                "{} starail start (exit status: 1)",
                english.tr(Message::CommandFailedLine)
            ),
            String::new(),
            "out".to_string(),
            String::new(),
            "stderr:".to_string(),
            "err".to_string(),
        ]
    );
    assert!(command_output_lines(&args, true, "exit status: 0", " ", "", english).is_empty());
    assert_eq!(command_preview(Some("a\nb\n"), None), ["stdout:", "a", "b"]);
    assert_eq!(
        command_preview(Some("1\n2\n3\n4\n5\n6\n7\n"), Some("x\ny\n")),
        ["stdout:", "3", "4", "5", "6", "7", "stderr:", "x", "y"]
    );
    assert_eq!(
        running_hint(&strings(&["core", "install"]), english),
        [english.tr(Message::CoreInstallRunHint)]
    );
    assert!(running_hint(&strings(&["stop"]), english).is_empty());
}

#[test]
fn display_width_helpers() {
    assert_eq!(pad_left_display_width("ab", 4), "  ab");
    assert_eq!(pad_left_display_width("节点", 3), "节点");
    assert_eq!(take_display_width("节点节点", 5), "节点");
    assert_eq!(empty_as_dash("  "), "-");
    assert_eq!(empty_as_dash("x"), "x");
}

#[test]
fn core_archives_unpack() {
    let mut encoder =
        flate2::write::GzEncoder::new(Vec::new(), flate2::Compression::default());
    encoder.write_all(b"\x7fELF mihomo").expect("write");
    let archive = encoder.finish().expect("finish");
    assert_eq!(
        starail::mihomo_core::unpack_core_archive(&archive).expect("gzip"),
        b"\x7fELF mihomo"
    );

    let error = starail::mihomo_core::unpack_core_archive(b"not gzip").expect_err("not gzip");
    assert!(error.starts_with("failed to unpack downloaded mihomo archive: "));
    assert!(error.len() > "failed to unpack downloaded mihomo archive: ".len());
    assert_eq!(
        starail::mihomo_core::unpack_error_message("bad header"),
        "failed to unpack downloaded mihomo archive: bad header"
    );
}

#[test]
fn finishing_a_test_keeps_the_results_in() {
    let group = ProxyItem {
        name: "Auto".to_string(),
        kind: "select".to_string(),
        children: strings(&["A", "B", "C"]),
    };
    let mut page = ProxyGroupPage {
        group,
        selected: 0,
        back_items: Vec::new(),
        back_selected: 0,
        node_results: Vec::new(),
        message: String::new(),
    };
    let english = Language::English;
    let mut progress = begin_test(&mut page, english, "https://t", 500).expect("three nodes");
    record_result(&mut page, &mut progress, 0, Some("7ms".to_string()), english);
    record_result(&mut page, &mut progress, 2, None, english);
    finish_test(&mut page, &progress, english);
    assert!(matches!(&page.node_results[0], NodeTestStatus::Measured(d) if d == "7ms"));
    assert!(matches!(&page.node_results[1], NodeTestStatus::Untested));
    assert!(matches!(&page.node_results[2], NodeTestStatus::Failed));
    cancel_test(&mut page, english);
    assert!(matches!(&page.node_results[0], NodeTestStatus::Measured(d) if d == "7ms"));
    assert!(matches!(&page.node_results[2], NodeTestStatus::Failed));
}

#[test]
fn going_back_from_a_group_returns_to_where_one_came_from() {
    let item = |name: &str| ProxyItem {
        name: name.to_string(),
        kind: "select".to_string(),
        children: strings(&["A", "B"]),
    };
    let page = ProxyGroupPage {
        group: item("Second"),
        selected: 0,
        back_items: vec![item("First"), item("Second")],
        back_selected: 1,
        node_results: vec![NodeTestStatus::Untested, NodeTestStatus::Untested],
        message: "m".to_string(),
    };
    let english = Language::English;
    let (screen, effect) =
        starail::tui::state::handle_proxy_group_key(page, key(KeyCode::Char('j')), english);
    assert!(matches!(effect, Effect::Nothing));
    let page = match screen {
        Screen::ProxyGroup(page) => page,
        other => panic!("unexpected {other:?}"),
    };
    assert_eq!(page.selected, 1);
    assert_eq!(page.back_selected, 1);
    assert_eq!(page.message, "m");
    let (screen, _) = starail::tui::state::handle_proxy_group_key(page, key(KeyCode::Esc), english);
    match screen {
        Screen::Proxies(proxies) => {
            assert_eq!(proxies.items.len(), 2);
            assert_eq!(proxies.selected, 1);
            assert_eq!(proxies.message, english.tr(Message::ProxyDataLoaded));
        }
        other => panic!("unexpected {other:?}"),
    }
}

#[test]
fn removing_a_profile_asks_first_with_yes_chosen() {
    let english = Language::English;
    let profiles = list(vec![("work".to_string(), None)], None);
    let page = starail::tui::pages::ProfilePage::load(profiles, english);
    let (screen, effect) =
        starail::tui::state::handle_profiles_key(page, key(KeyCode::Char('d')), english);
    assert!(matches!(effect, Effect::Nothing));
    match screen {
        Screen::Confirm(confirm) => {
            assert!(confirm.selected_yes);
            assert_eq!(confirm.request.args, ["profile", "remove", "work"]);
        }
        other => panic!("unexpected {other:?}"),
    }

    let mut app = App::new(english);
    app.ask_install_core("/h/bin/mihomo");
    match app.screen() {
        Screen::Confirm(confirm) => {
            assert!(confirm.selected_yes);
            assert_eq!(confirm.request.args, ["core", "install"]);
        }
        other => panic!("unexpected {other:?}"),
    }
}

#[test]
fn stripped_profiles_have_no_runtime_keys() {
    let text = "secret: a\r\nexternal-controller: b\r\r\n  secret: indented\nproxies: []\r\n";
    let stripped = strip_runtime_keys(text);
    assert_eq!(top_level_value(&stripped, "secret"), None);
    assert_eq!(top_level_value(&stripped, "external-controller"), None);
    assert_eq!(top_level_value(&stripped, "proxies").as_deref(), Some("[]"));
}

#[test]
fn removing_the_block_twice_changes_nothing_more() {
    let text = "a\n# >>> starail proxy >>>\nx\n# <<< starail proxy <<<\nb\n# >>> starail proxy >>>\ny";
    let once = remove_block_text(text);
    assert_eq!(once, "a\nb\n");
    assert_eq!(remove_block_text(&once), once);
}

#[test]
fn base64_encodings_decode_back() {
    assert_eq!(decode_base64(b"+/8="), Some(vec![0xfb, 0xff]));
    assert_eq!(decode_base64(b"-_8"), Some(vec![0xfb, 0xff]));
    assert_eq!(decode_base64(b"AAEC"), Some(vec![0, 1, 2]));
    assert_eq!(decode_base64(b"aGk"), Some(b"hi".to_vec()));
    assert_eq!(decode_base64(b"A"), None);
    assert_eq!(decode_base64(b"QQ==QQ=="), None);
}

#[test]
fn json_strings_escape_like_serde_json() {
    assert_eq!(mode_body("a\u{1}\n\"\\"), "{\"mode\":\"a\\u0001\\n\\\"\\\\\"}");
    assert_eq!(select_body("\u{1f}\u{7f}"), "{\"name\":\"\\u001f\u{7f}\"}");
}

#[test]
fn search_path_is_tried_in_order() {
    assert_eq!(
        path_candidates("/usr/local/bin:/usr/bin/::rel", "mihomo"),
        ["/usr/local/bin/mihomo", "/usr/bin/mihomo", "mihomo", "rel/mihomo"]
    );
    assert_eq!(path_candidates("", "mihomo"), ["mihomo"]);
    let checked = vec![
        ("/a/mihomo".to_string(), false),
        ("/b/mihomo".to_string(), true),
        ("/c/mihomo".to_string(), true),
    ];
    assert_eq!(first_executable(&checked).as_deref(), Some("/b/mihomo"));
    assert_eq!(first_executable(&vec![("/a/mihomo".to_string(), false)]), None);
}

#[test]
fn client_profiles_are_tried_until_one_works() {
    let mut state = FetchState::new();
    let step = fetch_step(&mut state, "mihomo", judge_subscription_response("u", b"client does not support"));
    assert!(matches!(step, FetchStep::TryNext));
    assert_eq!(state.rejected, ["mihomo"]);
    let step = fetch_step(&mut state, "Mihomo", judge_subscription_response("u", b"c3M6Ly9leGFtcGxlCg=="));
    assert!(matches!(step, FetchStep::TryNext));
    assert!(state.last_error.as_deref().unwrap_or_default().contains("base64 proxy-link list"));
    match fetch_step(&mut state, "Clash.Meta", judge_subscription_response("u", b"proxies:\n")) {
        FetchStep::Write(normalized) => assert_eq!(normalized.bytes, b"proxies:\n"),
        other => panic!("unexpected {other:?}"),
    }
    match fetch_step(&mut state, "clash.meta", judge_subscription_response("u", b"")) {
        FetchStep::Stop(error) => assert_eq!(error, "subscription download was empty: u"),
        other => panic!("unexpected {other:?}"),
    }
    assert_eq!(state.rejected, ["mihomo"]);
}

#[test]
fn profile_metadata_is_built_with_its_time() {
    let meta = starail::subscription::subscription_meta("work", "https://x/sub", 1700000000);
    assert_eq!(meta.kind, ProfileKind::Subscription);
    assert_eq!(meta.source_url.as_deref(), Some("https://x/sub"));
    assert_eq!(meta.updated_at, "1700000000");
    let local = starail::profile::local_meta("home", 5);
    assert_eq!(local.kind, ProfileKind::Local);
    assert_eq!(local.source_url, None);
    assert_eq!(local.updated_at, "5");
}

#[test]
fn home_page_ignores_other_keys_and_opens_settings() {
    let mut app = App::new(Language::English);
    assert!(matches!(app.handle_key(key(KeyCode::Char('x'))), Effect::Nothing));
    assert!(matches!(app.screen(), Screen::Home));
    assert_eq!(app.selected(), 0);
    for _ in 0..4 {
        app.handle_key(key(KeyCode::Down));
    }
    assert!(matches!(app.handle_key(key(KeyCode::Enter)), Effect::Nothing));
    match app.screen() {
        Screen::Settings(page) => {
            assert_eq!(page.message, Language::English.tr(Message::SettingsLoaded));
            assert_eq!(page.selected, 0);
        }
        other => panic!("unexpected {other:?}"),
    }
}

#[test]
fn start_picks_its_config_or_refuses() {
    let paths = starail::paths::StarailPaths::under("/h");
    assert_eq!(
        starail::runtime::start_config(&paths, true, Some(42), None, Some("work"), true).expect_err("running"),
        "mihomo is already running with pid 42. Use 'starail restart' or 'starail stop' first."
    );
    assert_eq!(
        starail::runtime::start_config(&paths, false, None, Some("/tmp/c.yaml"), None, false).expect("given"),
        "/tmp/c.yaml"
    );
    assert_eq!(
        starail::runtime::start_config(&paths, false, None, None, Some("work"), true).expect("active"),
        paths.profile_config_path("work")
    );
    assert_eq!(
        starail::runtime::start_config(&paths, false, None, None, Some("work"), false).expect_err("missing"),
        "active profile 'work' is missing. Run 'starail profile list'."
    );
    assert!(starail::runtime::start_config(&paths, false, None, None, None, false)
        .expect_err("none")
        .starts_with("no active profile selected."));
}

#[test]
fn result_handlers_build_the_exact_pages() {
    let english = Language::English;
    let mut app = App::new(english);
    app.on_logs("/h/logs/mihomo.log", Ok("a\nb\n".to_string()));
    match app.screen() {
        Screen::Logs(page) => {
            assert_eq!(page.title, "Logs: /h/logs/mihomo.log");
            assert_eq!(page.lines, ["a", "b"]);
            assert_eq!(page.message, english.tr(Message::LogsLoaded));
        }
        other => panic!("unexpected {other:?}"),
    }
    let configs = parse_json(r#"{"mode": "global"}"#).expect("json");
    app.on_controller_configs(Some(&configs));
    match app.screen() {
        Screen::Mode(page) => {
            assert_eq!(page.current(), Some("global"));
            assert_eq!(page.selected(), 1);
            assert_eq!(page.message(), english.tr(Message::ControllerModeLoaded));
        }
        other => panic!("unexpected {other:?}"),
    }
}
