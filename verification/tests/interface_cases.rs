use starail::i18n::Language;
use starail::tui::groups::proxy_groups_from_yaml;
use starail::tui::pages::{SettingsItemKind, SettingsPage};
use starail::tui::state::parse_mixed_port;
use starail::tui::view::status_display_value;
use starail::width::{pad_display_width, truncate_for_column};
use starail::yaml::parse_yaml;
use unicode_width::UnicodeWidthStr;

#[test]
fn settings_page_groups_language_display_mode_logs_and_core() {
    let page = SettingsPage::load(Language::English);

    assert_eq!(
        page.items,
        [
            SettingsItemKind::Language,
            SettingsItemKind::MixedPort,
            SettingsItemKind::SwitchMode,
            SettingsItemKind::Logs,
            SettingsItemKind::CheckUpdateCore,
        ]
    );
    assert_eq!(page.items[0].label(Language::English), "Language");
    assert_eq!(page.items[1].label(Language::English), "Custom port");
    assert_eq!(page.items[2].label(Language::English), "Switch mode");
    assert_eq!(page.items[3].label(Language::English), "Logs");
    assert_eq!(page.items[4].label(Language::English), "Check/update core");
}

#[test]
fn parses_mixed_port_values() {
    let language = Language::English;
    assert_eq!(parse_mixed_port("7891", language).expect("port should parse"), 7891);
    assert!(parse_mixed_port("0", language).is_err());
    assert!(parse_mixed_port("65536", language).is_err());
    assert!(parse_mixed_port("abc", language).is_err());
}

#[test]
fn pads_cjk_text_by_display_width() {
    let padded = pad_display_width("设置", 8);

    assert_eq!(UnicodeWidthStr::width("设置"), 4);
    assert_eq!(UnicodeWidthStr::width(padded.as_str()), 8);
    assert_eq!(padded, "设置    ");
}

#[test]
fn truncates_cjk_text_by_display_width() {
    let truncated = truncate_for_column("节点节点节点", 7);

    assert_eq!(UnicodeWidthStr::width(truncated.as_str()), 7);
    assert_eq!(truncated, "节点...");
}

#[test]
fn translates_status_values_for_cjk_ui() {
    let language = Language::SimplifiedChinese;

    assert_eq!(status_display_value("missing", language), "缺失");
    assert_eq!(status_display_value("none", language), "无");
    assert_eq!(
        status_display_value("running (pid 42)", language),
        "运行中 (pid 42)"
    );
    assert_eq!(
        status_display_value("reachable (mode: rule)", language),
        "可连接 (模式: rule)"
    );
    assert_eq!(
        status_display_value("Proxy -> Node (+2 groups)", language),
        "Proxy -> Node (+2 组)"
    );
}

#[test]
fn proxy_groups_follow_yaml_order() {
    let yaml = parse_yaml(
        r#"
proxy-groups:
  - name: Auto
    type: url-test
    proxies: [A, B]
  - name: Manual
    type: select
    proxies:
      - C
      - D
proxies:
  - name: A
  - name: B
"#,
    )
    .expect("yaml should parse");

    let groups = proxy_groups_from_yaml(&yaml);

    assert_eq!(groups.len(), 2);
    assert_eq!(groups[0].name, "Auto");
    assert_eq!(groups[0].children, ["A", "B"]);
    assert_eq!(groups[1].name, "Manual");
    assert_eq!(groups[1].children, ["C", "D"]);
}
