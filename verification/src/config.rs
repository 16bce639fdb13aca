use vstd::prelude::*;
use crate::error::ServerError;
use crate::settings::{bad_line_text, parse_config, settings_of_text};

verus! {

/// Settings of the server.
#[derive(Debug, Clone)]
pub struct ServerConfig {
    pub host: String,
    pub port: u16,
    pub provider: ProviderConfig,
    pub tools: ToolsConfig,
    pub data_dir: DataDirConfig,
    pub logs: LogsConfig,
    pub budgets: BudgetsConfig,
}

/// Settings of the LLM provider.
#[derive(Debug, Clone)]
pub struct ProviderConfig {
    pub kind: String,
    pub base_url: String,
    pub model: String,
    pub api_key_env: String,
}

/// Timeouts and limits of tool execution.
#[derive(Debug, Clone)]
pub struct ToolsConfig {
    pub default_timeout_ms: u64,
    pub bash_timeout_ms: u64,
    pub delegate_timeout_ms: u64,
    pub subagent_max_parallel: u32,
    pub always_approve_hosts: Vec<String>,
}

/// Where persistent data lives.
#[derive(Debug, Clone)]
pub struct DataDirConfig {
    pub root: String,
}

/// Where application logs go and how verbose they are.
#[derive(Debug, Clone)]
pub struct LogsConfig {
    pub dir: String,
    pub level: String,
}

/// Token and cost budgets; none are defined yet.
#[derive(Debug, Clone)]
pub struct BudgetsConfig {}

pub fn default_host() -> (s: String)
    ensures
        s@ == "127.0.0.1"@,
{
    String::from_str("127.0.0.1")
}

pub fn default_port() -> (p: u16)
    ensures
        p == 8080,
{
    8080
}

pub fn default_provider_kind() -> (s: String)
    ensures
        s@ == "openai-compatible"@,
{
    String::from_str("openai-compatible")
}

pub fn default_base_url() -> (s: String)
    ensures
        s@ == "https://api.openai.com/v1"@,
{
    String::from_str("https://api.openai.com/v1")
}

pub fn default_model() -> (s: String)
    ensures
        s@ == "gpt-4o-mini"@,
{
    String::from_str("gpt-4o-mini")
}

pub fn default_api_key_env() -> (s: String)
    ensures
        s@ == "OPENAI_API_KEY"@,
{
    String::from_str("OPENAI_API_KEY")
}

pub fn default_timeout() -> (t: u64)
    ensures
        t == 30_000,
{
    30_000
}

pub fn default_bash_timeout() -> (t: u64)
    ensures
        t == 120_000,
{
    120_000
}

pub fn default_delegate_timeout() -> (t: u64)
    ensures
        t == 600_000,
{
    600_000
}

pub fn default_subagent_max_parallel() -> (n: u32)
    ensures
        n == 4,
{
    4
}

pub fn default_data_root() -> (s: String)
    ensures
        s@ == ".vulcan/data"@,
{
    String::from_str(".vulcan/data")
}

pub fn default_logs_dir() -> (s: String)
    ensures
        s@ == ".vulcan/logs"@,
{
    String::from_str(".vulcan/logs")
}

pub fn default_log_level() -> (s: String)
    ensures
        s@ == "info"@,
{
    String::from_str("info")
}

/// `c` holds the default provider settings.
pub open spec fn is_default_provider(c: ProviderConfig) -> bool {
    &&& c.kind@ == "openai-compatible"@
    &&& c.base_url@ == "https://api.openai.com/v1"@
    &&& c.model@ == "gpt-4o-mini"@
    &&& c.api_key_env@ == "OPENAI_API_KEY"@
}

/// `c` holds the default tool settings.
pub open spec fn is_default_tools(c: ToolsConfig) -> bool {
    &&& c.default_timeout_ms == 30_000
    &&& c.bash_timeout_ms == 120_000
    &&& c.delegate_timeout_ms == 600_000
    &&& c.subagent_max_parallel == 4
    &&& c.always_approve_hosts@.len() == 0
}

/// `c` holds the default data directory.
pub open spec fn is_default_data_dir(c: DataDirConfig) -> bool {
    c.root@ == ".vulcan/data"@
}

/// `c` holds the default log settings.
pub open spec fn is_default_logs(c: LogsConfig) -> bool {
    &&& c.dir@ == ".vulcan/logs"@
    &&& c.level@ == "info"@
}

/// `c` holds the default server settings.
pub open spec fn is_default_server(c: ServerConfig) -> bool {
    &&& c.host@ == "127.0.0.1"@
    &&& c.port == 8080
    &&& is_default_provider(c.provider)
    &&& is_default_tools(c.tools)
    &&& is_default_data_dir(c.data_dir)
    &&& is_default_logs(c.logs)
}

/// The settings a `ServerConfig` holds, as plain values.
pub struct ConfigModel {
    pub host: Seq<char>,
    pub port: u16,
    pub provider_kind: Seq<char>,
    pub base_url: Seq<char>,
    pub model: Seq<char>,
    pub api_key_env: Seq<char>,
    pub default_timeout_ms: u64,
    pub bash_timeout_ms: u64,
    pub delegate_timeout_ms: u64,
    pub subagent_max_parallel: u32,
    pub always_approve_hosts: Seq<Seq<char>>,
    pub data_root: Seq<char>,
    pub logs_dir: Seq<char>,
    pub log_level: Seq<char>,
}

/// The text of each string of `v`.
pub open spec fn string_texts(v: Seq<String>) -> Seq<Seq<char>> {
    v.map_values(|h: String| h@)
}

impl ServerConfig {
    /// The settings `self` holds.
    pub open spec fn settings(self) -> ConfigModel {
        ConfigModel {
            host: self.host@,
            port: self.port,
            provider_kind: self.provider.kind@,
            base_url: self.provider.base_url@,
            model: self.provider.model@,
            api_key_env: self.provider.api_key_env@,
            default_timeout_ms: self.tools.default_timeout_ms,
            bash_timeout_ms: self.tools.bash_timeout_ms,
            delegate_timeout_ms: self.tools.delegate_timeout_ms,
            subagent_max_parallel: self.tools.subagent_max_parallel,
            always_approve_hosts: string_texts(self.tools.always_approve_hosts@),
            data_root: self.data_dir.root@,
            logs_dir: self.logs.dir@,
            log_level: self.logs.level@,
        }
    }
}

/// The default settings.
pub open spec fn default_settings() -> ConfigModel {
    ConfigModel {
        host: "127.0.0.1"@,
        port: 8080,
        provider_kind: "openai-compatible"@,
        base_url: "https://api.openai.com/v1"@,
        model: "gpt-4o-mini"@,
        api_key_env: "OPENAI_API_KEY"@,
        default_timeout_ms: 30_000,
        bash_timeout_ms: 120_000,
        delegate_timeout_ms: 600_000,
        subagent_max_parallel: 4,
        always_approve_hosts: Seq::empty(),
        data_root: ".vulcan/data"@,
        logs_dir: ".vulcan/logs"@,
        log_level: "info"@,
    }
}

impl Default for ProviderConfig {
    fn default() -> (c: Self)
        ensures
            is_default_provider(c),
    {
        ProviderConfig {
            kind: default_provider_kind(),
            base_url: default_base_url(),
            model: default_model(),
            api_key_env: default_api_key_env(),
        }
    }
}

impl Default for ToolsConfig {
    fn default() -> (c: Self)
        ensures
            is_default_tools(c),
    {
        ToolsConfig {
            default_timeout_ms: default_timeout(),
            bash_timeout_ms: default_bash_timeout(),
            delegate_timeout_ms: default_delegate_timeout(),
            subagent_max_parallel: default_subagent_max_parallel(),
            always_approve_hosts: Vec::new(),
        }
    }
}

impl Default for DataDirConfig {
    fn default() -> (c: Self)
        ensures
            is_default_data_dir(c),
    {
        DataDirConfig { root: default_data_root() }
    }
}

impl Default for LogsConfig {
    fn default() -> (c: Self)
        ensures
            is_default_logs(c),
    {
        LogsConfig { dir: default_logs_dir(), level: default_log_level() }
    }
}

impl Default for BudgetsConfig {
    fn default() -> (c: Self) {
        BudgetsConfig {}
    }
}

impl Default for ServerConfig {
    fn default() -> (c: Self)
        ensures
            is_default_server(c),
            c.settings() == default_settings(),
    {
        let c = ServerConfig {
            host: default_host(),
            port: default_port(),
            provider: ProviderConfig::default(),
            tools: ToolsConfig::default(),
            data_dir: DataDirConfig::default(),
            logs: LogsConfig::default(),
            budgets: BudgetsConfig {},
        };
        assert(string_texts(c.tools.always_approve_hosts@) =~= Seq::<Seq<char>>::empty());
        c
    }
}

impl ServerConfig {
    /// Loads the server settings from the text of the settings file, where
    /// there is one: the defaults, overridden by the settings the file
    /// gives. A malformed line, or a value that does not suit its key, is
    /// refused with the number of its line.
    pub fn load(text: Option<&str>) -> (r: Result<Self, ServerError>)
        ensures
            text is None ==> (r matches Ok(c) && is_default_server(c) && c.settings() == default_settings()),
            text matches Some(t) ==> match settings_of_text(t@) {
                Ok(m) => r matches Ok(c) && c.settings() == m,
                Err(line) => r matches Err(ServerError::Config(msg)) && msg@ == bad_line_text(line),
            },
    {
        match text {
            None => Ok(ServerConfig::default()),
            Some(t) => parse_config(t),
        }
    }
}

/// A settings file with nothing in it leaves every setting at its default.
pub proof fn law_empty_file_gives_defaults()
    ensures
        settings_of_text(Seq::<char>::empty()) == Ok::<ConfigModel, nat>(default_settings()),
{
}

} // verus!
