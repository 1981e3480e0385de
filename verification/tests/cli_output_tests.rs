use nactl::cli::{
    edit_outcome, ensure_non_empty, removed_message, saved_auth_notice, select_editor,
    updated_message, CliError, GlobalArgs, OutputFormat, SearchMode as CliSearchMode,
};
use nactl::config::RuntimeConfig;
use nactl::nacos::{ConfigGetResult, ConfigListItem, ConfigListResult, LoginResult, SearchMode};
use nactl::output::{config_get_report, config_get_text, config_list_text, login_result_text, truncate};

fn s(v: &str) -> Option<String> {
    Some(v.to_string())
}

#[test]
fn content_must_not_be_blank() {
    assert_eq!(ensure_non_empty("a: 1\n".to_string()).ok(), s("a: 1\n"));
    let err = ensure_non_empty(" \n\t".to_string()).err().unwrap();
    assert!(matches!(err, CliError::EmptyContent));
    assert_eq!(err.message(), "config content is empty");
}

#[test]
fn edits() {
    assert_eq!(edit_outcome("a.yaml", "G", "k: v\n", "k: v\n\n").ok().unwrap(), None);
    assert_eq!(edit_outcome("a.yaml", "G", "", "").ok().unwrap(), None);
    assert_eq!(edit_outcome("a.yaml", "G", "k: v", "k: w\n").ok().unwrap(), s("k: w"));
    let err = edit_outcome("a.yaml", "G", "k: v", "  \n").err().unwrap();
    assert_eq!(err.message(), "refusing to publish empty content for G/a.yaml");
}

#[test]
fn editor_choice() {
    assert_eq!(select_editor(Some("nano"), s("code"), s("vim")), "nano");
    assert_eq!(select_editor(None, s("code -w"), s("vim")), "code -w");
    assert_eq!(select_editor(None, s("  "), s("vim")), "vim");
    assert_eq!(select_editor(None, None, s(" ")), "vi");
    assert_eq!(select_editor(None, None, None), "vi");
}

#[test]
fn messages() {
    assert_eq!(updated_message("DEFAULT_GROUP", "app.yaml"), "updated DEFAULT_GROUP/app.yaml");
    assert_eq!(removed_message("G", "x"), "removed G/x");
    assert_eq!(saved_auth_notice(OutputFormat::Text, Some("/h/config.yaml")), s("savedAuth: /h/config.yaml"));
    assert_eq!(saved_auth_notice(OutputFormat::Json, Some("/h/config.yaml")), None);
    assert_eq!(saved_auth_notice(OutputFormat::Text, None), None);
}

#[test]
fn search_mode_conversion() {
    assert_eq!(SearchMode::from(CliSearchMode::Auto), SearchMode::Auto);
    assert_eq!(SearchMode::from(CliSearchMode::Accurate), SearchMode::Accurate);
    assert_eq!(SearchMode::from(CliSearchMode::Blur), SearchMode::Blur);
}

#[test]
fn global_args_become_overrides() {
    let g = GlobalArgs {
        server: s("h:1"),
        context_path: None,
        namespace: s("dev"),
        username: None,
        password: None,
        access_token: s("t"),
        config: s("/c.yaml"),
        timeout_secs: Some(3),
        verbose: true,
    };
    let o = g.overrides();
    assert_eq!(o.server, s("h:1"));
    assert_eq!(o.namespace, s("dev"));
    assert_eq!(o.access_token, s("t"));
    assert_eq!(o.config, s("/c.yaml"));
    assert_eq!(o.timeout_secs, Some(3));
    assert!(o.verbose);
}

#[test]
fn truncation() {
    assert_eq!(truncate("short", 10), "short");
    assert_eq!(truncate("exactly10!", 10), "exactly10!");
    assert_eq!(truncate("abcdefghijk", 5), "abcd~");
    assert_eq!(truncate("é漢字テスト", 3), "é漢~");
    assert_eq!(truncate("abc", 0), "~");
    assert_eq!(truncate("", 0), "");
}

fn item(id: &str, group: Option<&str>, group_name: Option<&str>, kind: Option<&str>) -> ConfigListItem {
    ConfigListItem {
        data_id: id.to_string(),
        group: group.map(|g| g.to_string()),
        group_name: group_name.map(|g| g.to_string()),
        tenant: None,
        config_type: kind.map(|k| k.to_string()),
        content: None,
    }
}

#[test]
fn config_list_table() {
    let empty = ConfigListResult { total_count: 0, page_number: 1, pages_available: 0, page_items: vec![] };
    assert_eq!(config_list_text(&empty), "no configs found\n");

    let long_id = "x".repeat(50);
    let result = ConfigListResult {
        total_count: 3,
        page_number: 1,
        pages_available: 1,
        page_items: vec![
            item("application.yaml", Some("DEFAULT_GROUP"), None, Some("yaml")),
            item(&long_id, Some("G"), Some("NAMED"), None),
            item("plain", None, None, Some("properties-long-type")),
        ],
    };
    let mut expected = String::new();
    expected += "page 1 / 1, total 3\n";
    expected += &format!("{:<4} {:<42} {:<24} {:<12}\n", "#", "DATA ID", "GROUP", "TYPE");
    expected += &format!("{:<4} {:<42} {:<24} {:<12}\n", 1, "application.yaml", "DEFAULT_GROUP", "yaml");
    expected += &format!("{:<4} {:<42} {:<24} {:<12}\n", 2, format!("{}~", "x".repeat(41)), "NAMED", "");
    expected += &format!("{:<4} {:<42} {:<24} {:<12}\n", 3, "plain", "", "properties-~");
    assert_eq!(config_list_text(&result), expected);
}

fn runtime() -> RuntimeConfig {
    RuntimeConfig {
        config_path: None,
        base_url: "http://127.0.0.1:8848".to_string(),
        context_path: "/nacos".to_string(),
        namespace: "public".to_string(),
        username: None,
        password: None,
        access_token: None,
        timeout_secs: 10,
        verbose: false,
    }
}

#[test]
fn login_text() {
    let r = LoginResult { access_token: "tok".to_string(), token_ttl: Some(18000), endpoint: "/v1/auth/login".to_string() };
    assert_eq!(
        login_result_text(&runtime(), &r),
        "server: http://127.0.0.1:8848/nacos\nendpoint: /v1/auth/login\naccessToken: tok\ntokenTtl: 18000\n"
    );
    let r = LoginResult { access_token: "tok".to_string(), token_ttl: None, endpoint: "/e".to_string() };
    assert_eq!(login_result_text(&runtime(), &r), "server: http://127.0.0.1:8848/nacos\nendpoint: /e\naccessToken: tok\n");
}

#[test]
fn get_text() {
    assert_eq!(config_get_text(&Some(ConfigGetResult { content: "k: v".to_string() })), "k: v");
    assert_eq!(config_get_text(&None), "config not found\n");
}

#[test]
fn get_report() {
    let r = config_get_report(&runtime(), "a.yaml", "G", &Some(ConfigGetResult { content: "x".to_string() }));
    assert_eq!(r.server, "http://127.0.0.1:8848");
    assert_eq!(r.context_path, "/nacos");
    assert_eq!(r.namespace, "public");
    assert_eq!((r.data_id.as_str(), r.group.as_str()), ("a.yaml", "G"));
    assert!(r.found);
    assert_eq!(r.content, s("x"));
    let r = config_get_report(&runtime(), "a.yaml", "G", &None);
    assert!(!r.found);
    assert_eq!(r.content, None);
}
