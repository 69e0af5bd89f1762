use mihomo_tui::cli::CliArgs;
use mihomo_tui::config::AppConfig;
use mihomo_tui::error::AppError;
use mihomo_tui::runtime::config_file::{select_configs, ConfigFileInfo, ConfigFileManager};
use mihomo_tui::yaml::Yaml;

fn defaults() -> AppConfig {
    AppConfig::default_in("/home/u/.config/mihomo-tui", "/home/u/.config/mihomo")
}

#[test]
fn default_values() {
    let args = CliArgs::default();
    assert_eq!(args.api_addr, "127.0.0.1:9090");
    assert_eq!(args.secret, "");
    assert!(!args.use_https);
    assert!(!args.light_theme);
    assert_eq!(args.tick_rate, 100);
    assert!(args.command.is_none());
}

#[test]
fn from_cli_defaults() {
    let cli = CliArgs::default();
    let cfg = AppConfig::from_cli(&cli, defaults(), None).unwrap();
    assert_eq!(cfg.api_addr, "127.0.0.1:9090");
    assert_eq!(cfg.api_base_url, "http://127.0.0.1:9090");
    assert_eq!(cfg.api_scheme, "http");
    assert_eq!(cfg.api_secret, "");
}

#[test]
fn from_cli_overrides() {
    let cli = CliArgs {
        api_addr: "192.168.1.1:9090".to_owned(),
        secret: "mypassword".to_owned(),
        use_https: true,
        light_theme: true,
        tick_rate: 200,
        ..CliArgs::default()
    };
    let cfg = AppConfig::from_cli(&cli, defaults(), None).unwrap();
    assert_eq!(cfg.api_addr, "192.168.1.1:9090");
    assert_eq!(cfg.api_base_url, "https://192.168.1.1:9090");
    assert_eq!(cfg.api_scheme, "https");
    assert_eq!(cfg.api_secret, "mypassword");
    assert!(cfg.light_theme);
    assert_eq!(cfg.tick_rate_ms, 200);
}

#[test]
fn config_file_overlay_and_cli_precedence() {
    let file = "api_addr: 10.0.0.1:9999\napi_scheme: https\nlog_file: /tmp/x.log\nmihomo_config_dir: /etc/mihomo\ntick_rate_ms: 7\n";
    let mut cfg = defaults();
    AppConfig::load_from_file(&mut cfg, "/c.yaml", Ok(file.to_owned())).unwrap();
    assert_eq!(cfg.api_base_url, "https://10.0.0.1:9999");
    assert_eq!(cfg.tick_rate_ms, 7);
    assert_eq!(cfg.log_file.as_deref(), Some("/tmp/x.log"));
    let cli = CliArgs::default();
    let cfg = AppConfig::from_cli(&cli, defaults(), Some(("/c.yaml".to_owned(), Ok(file.to_owned())))).unwrap();
    assert_eq!(cfg.api_base_url, "http://127.0.0.1:9090");
    assert_eq!(cfg.mihomo_config_dir, "/etc/mihomo");
    // No `--log-file`: the file's value stays.
    assert_eq!(cfg.log_file.as_deref(), Some("/tmp/x.log"));
    assert_eq!(cfg.tick_rate_ms, 100);
}

#[test]
fn config_file_errors() {
    let cli = CliArgs::default();
    let e = AppConfig::from_cli(&cli, defaults(), Some(("/c.yaml".to_owned(), Err("denied".to_owned())))).unwrap_err();
    assert_eq!(e, AppError::Config("cannot read /c.yaml: denied".to_owned()));
    let e = AppConfig::from_cli(&cli, defaults(), Some(("/c.yaml".to_owned(), Ok("a: [".to_owned())))).unwrap_err();
    match e {
        AppError::Config(m) => assert!(m.starts_with("parse error in /c.yaml: ")),
        other => panic!("unexpected {other:?}"),
    }
}

#[test]
fn validate_config_valid() {
    let mgr = ConfigFileManager::new("/tmp/mihomo_tui_test_validate");
    let contents = r#"mixed-port: 7890
proxies:
  - name: test
    type: ss
    server: 1.2.3.4
    port: 443
proxy-groups:
  - name: default
    type: select
rules:
  - MATCH,DIRECT
"#;
    let result = mgr.validate_config("good.yaml", Ok(contents.to_owned())).unwrap();
    assert!(result.valid);
}

#[test]
fn validate_config_messages() {
    let mgr = ConfigFileManager::new("/cfg");
    let result = mgr.validate_config("bad.yaml", Ok("proxies: []\n".to_owned())).unwrap();
    assert!(!result.valid);
    assert_eq!(
        result.messages,
        vec![
            "No listening port configured (missing port/socks-port/mixed-port)",
            "'proxies' section is empty",
            "No 'proxy-groups' or 'proxy-providers' section found",
            "No 'rules' or 'rule-providers' section found",
            "Warning: no 'dns' section configured",
        ]
    );
    let result = mgr.validate_config("x.yaml", Ok("a: [".to_owned())).unwrap();
    assert!(!result.valid);
    assert_eq!(result.messages, vec!["Cannot parse YAML: cannot parse YAML from config file: x.yaml"]);
    let result = mgr.validate_config("gone.yaml", Err("config file not found: /cfg/gone.yaml".to_owned())).unwrap();
    assert!(!result.valid);
    assert_eq!(result.messages, vec!["Cannot parse YAML: config file not found: /cfg/gone.yaml"]);
}

#[test]
fn config_documents_parse_and_emit() {
    let doc = ConfigFileManager::config_document("a.yaml", Ok("mixed-port: 7890\n".to_owned())).unwrap();
    assert_eq!(doc.get("mixed-port").and_then(|v| v.as_u64()), Some(7890));
    assert_eq!(ConfigFileManager::config_text(&doc).unwrap(), "mixed-port: 7890\n");
    assert_eq!(
        ConfigFileManager::config_document("a.yaml", Ok("a: [".to_owned())).unwrap_err(),
        AppError::Other("cannot parse YAML from config file: a.yaml".to_owned())
    );
    assert_eq!(
        ConfigFileManager::config_document("a.yaml", Err("denied".to_owned())).unwrap_err(),
        AppError::Other("denied".to_owned())
    );
    let bad = Yaml::Tagged(String::new(), Box::new(Yaml::Null));
    assert_eq!(ConfigFileManager::config_text(&bad).unwrap_err(), AppError::Other("cannot serialize config to YAML".to_owned()));
}

#[test]
fn write_path_is_inside_the_directory() {
    let mgr = ConfigFileManager::new("/cfg");
    let p = mgr.resolve_path_for_write("sub/a.yaml").unwrap();
    assert!(p.starts_with("/cfg"));
    assert!(p.ends_with("sub/a.yaml"));
}

#[test]
fn create_default_config() {
    let mgr = ConfigFileManager::new("/tmp/mihomo_tui_test_default");
    let content = mgr.create_default_config("new-config.yaml").unwrap();
    assert!(content.contains("mixed-port: 7890"));
    let check = mgr.validate_config("new-config.yaml", Ok(content)).unwrap();
    assert!(check.valid);
    assert_eq!(check.messages, vec!["'proxies' section is empty".to_owned()]);
}

#[test]
fn reject_path_traversal() {
    let mgr = ConfigFileManager::new("/tmp/mihomo_tui_test_traversal");
    assert!(mgr.resolve_path_for_write("../../../etc/passwd").is_err());
    assert!(mgr.resolve_path_for_write("ok.yaml").is_ok());
    assert_eq!(
        mgr.create_default_config("/tmp/mt_evil.yaml").unwrap_err(),
        AppError::Other("path traversal detected: /tmp/mt_evil.yaml".to_owned())
    );
    assert!(mgr.resolve_path_for_write("\\evil.yaml").is_err());
    assert!(mgr.resolve_path_for_write("C:evil.yaml").is_err());
}

#[test]
fn resolve_existing_config() {
    let mgr = ConfigFileManager::new("/cfg");
    assert_eq!(mgr.resolve_path("a.yaml", "/cfg/a.yaml".to_owned(), true, true).unwrap(), "/cfg/a.yaml");
    assert_eq!(
        mgr.resolve_path("../a.yaml", "/a.yaml".to_owned(), false, true).unwrap_err(),
        AppError::Other("path traversal detected: ../a.yaml".to_owned())
    );
    assert_eq!(
        mgr.resolve_path("b.yaml", "/cfg/b.yaml".to_owned(), true, false).unwrap_err(),
        AppError::Other("config file not found: /cfg/b.yaml".to_owned())
    );
}

fn info(name: &str) -> ConfigFileInfo {
    ConfigFileInfo { name: name.to_owned(), path: format!("/cfg/{name}"), size: 1, modified: None }
}

#[test]
fn list_configs_empty_dir() {
    assert!(select_configs(Vec::new()).is_empty());
}

#[test]
fn list_configs_with_files() {
    let configs = select_configs(vec![info("config.yaml"), info("other.yml"), info("readme.txt")]);
    assert_eq!(configs.len(), 2);
}

#[test]
fn config_names_sorted_and_filtered() {
    let configs = select_configs(vec![info("z.yaml"), info(".yaml"), info("a.yml"), info("b.YAML"), info("m.yaml")]);
    let names: Vec<&str> = configs.iter().map(|c| c.name.as_str()).collect();
    assert_eq!(names, vec!["a.yml", "m.yaml", "z.yaml"]);
}
