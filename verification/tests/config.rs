use vulcan_agent::config::{
    default_base_url, default_bash_timeout, default_delegate_timeout, default_subagent_max_parallel, ServerConfig,
    ToolsConfig,
};
use vulcan_agent::error::ServerError;
use vulcan_agent::settings::parse_config;
use vulcan_agent::state::AppState;

#[test]
fn test_default_config() {
    let config = ServerConfig::default();
    assert_eq!(config.host, "127.0.0.1");
    assert_eq!(config.port, 8080);
    assert_eq!(config.provider.kind, "openai-compatible");
    assert_eq!(config.provider.model, "gpt-4o-mini");
    assert_eq!(config.provider.api_key_env, "OPENAI_API_KEY");
    assert_eq!(config.tools.default_timeout_ms, 30_000);
    assert_eq!(config.data_dir.root, ".vulcan/data");
    assert_eq!(config.logs.dir, ".vulcan/logs");
    assert_eq!(config.logs.level, "info");
}

#[test]
fn default_tools_config_matches_documented_values() {
    let tools = ToolsConfig::default();
    assert_eq!(tools.bash_timeout_ms, 120_000);
    assert_eq!(tools.delegate_timeout_ms, 600_000);
    assert_eq!(tools.subagent_max_parallel, 4);
    assert!(tools.always_approve_hosts.is_empty());
    assert_eq!(default_bash_timeout(), 120_000);
    assert_eq!(default_delegate_timeout(), 600_000);
    assert_eq!(default_subagent_max_parallel(), 4);
    assert_eq!(default_base_url(), "https://api.openai.com/v1");
}

#[test]
fn load_gives_the_defaults() {
    let config = ServerConfig::load(None).unwrap();
    assert_eq!(config.host, "127.0.0.1");
    assert_eq!(config.port, 8080);
    assert_eq!(config.provider.base_url, "https://api.openai.com/v1");
}

#[test]
fn app_state_keeps_its_config() {
    let mut config = ServerConfig::default();
    config.port = 9999;
    let state = AppState::new(config).unwrap();
    assert_eq!(state.config.port, 9999);
}

fn config_error(text: &str) -> String {
    match parse_config(text) {
        Err(ServerError::Config(m)) => m,
        Err(other) => panic!("unexpected error: {other:?}"),
        Ok(_) => panic!("settings accepted"),
    }
}

#[test]
fn settings_file_overrides_given_keys_only() {
    let text = "# settings\nport = 9090\n\n[tools]\nbash_timeout_ms = 5_000 # five seconds\nalways_approve_hosts = [\"localhost\", \"127.0.0.1\",]\n\n[budgets]\n";
    let config = ServerConfig::load(Some(text)).unwrap();
    assert_eq!(config.port, 9090);
    assert_eq!(config.host, "127.0.0.1");
    assert_eq!(config.tools.bash_timeout_ms, 5000);
    assert_eq!(config.tools.default_timeout_ms, 30_000);
    assert_eq!(config.tools.always_approve_hosts, vec!["localhost".to_string(), "127.0.0.1".to_string()]);
    assert_eq!(config.provider.model, "gpt-4o-mini");
}

#[test]
fn documented_settings_file_is_read() {
    let text = "[server]\r\nhost = \"0.0.0.0\"\r\nport = 8081\r\n\r\n[provider]\r\nkind = \"openai-compatible\"\r\nbase_url = \"http://localhost:11434/v1\"\r\nmodel = \"gpt-4o\"\r\napi_key_env = \"MY_KEY\"\r\n\r\n[tools]\r\ndefault_timeout_ms = 30_000\r\ndelegate_timeout_ms = 600_000\r\nsubagent_max_parallel = 8\r\n\r\n[data_dir]\r\nroot = \"/srv/vulcan\"\r\n\r\n[logs]\r\nlevel = \"debug\"\r\ndir = \"/var/log/vulcan\"\r\n\r\n[budgets]\r\n# nothing yet\r\n";
    let config = parse_config(text).unwrap();
    assert_eq!(config.host, "0.0.0.0");
    assert_eq!(config.port, 8081);
    assert_eq!(config.provider.base_url, "http://localhost:11434/v1");
    assert_eq!(config.provider.model, "gpt-4o");
    assert_eq!(config.provider.api_key_env, "MY_KEY");
    assert_eq!(config.tools.subagent_max_parallel, 8);
    assert_eq!(config.data_dir.root, "/srv/vulcan");
    assert_eq!(config.logs.level, "debug");
    assert_eq!(config.logs.dir, "/var/log/vulcan");
}

#[test]
fn empty_settings_file_gives_defaults() {
    let config = parse_config("").unwrap();
    assert_eq!(config.host, "127.0.0.1");
    assert_eq!(config.port, 8080);
    assert_eq!(config.logs.level, "info");
}

#[test]
fn unknown_keys_and_tables_are_skipped() {
    let config = parse_config("colour = true\n[mcp]\nservers = [\"fs\"]\nlimit = 3\n").unwrap();
    assert_eq!(config.port, 8080);
}

#[test]
fn invalid_values_are_refused_with_their_line() {
    assert_eq!(config_error("port = 70000"), "invalid setting at line 1");
    assert_eq!(config_error("[tools]\n\nbash_timeout_ms = \"soon\""), "invalid setting at line 3");
    assert_eq!(config_error("host = 127"), "invalid setting at line 1");
    assert_eq!(config_error("[tools]\nsubagent_max_parallel = 4294967296"), "invalid setting at line 2");
    assert_eq!(config_error("x = 99999999999999999999"), "invalid setting at line 1");
    assert_eq!(config_error("x = 1__0"), "invalid setting at line 1");
    assert_eq!(config_error("x = 10_"), "invalid setting at line 1");
    assert_eq!(config_error("host = \"a\\\"b\""), "invalid setting at line 1");
    assert_eq!(config_error("just words"), "invalid setting at line 1");
    assert_eq!(config_error("[tools\n"), "invalid setting at line 1");
    assert_eq!(config_error("port = 1 2"), "invalid setting at line 1");
    assert_eq!(config_error("\n\n[logs]\nlevel = [\"a\"]"), "invalid setting at line 4");
}

#[test]
fn later_setting_of_a_key_wins() {
    let config = parse_config("port = 1\nport = 2\n").unwrap();
    assert_eq!(config.port, 2);
}
