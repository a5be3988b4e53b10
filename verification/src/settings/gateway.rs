//! The gateway's configuration as a whole.

use vstd::prelude::*;

use crate::error::Error;
use crate::parts;
use crate::settings::database;
use crate::settings::database::{DatabaseBackend, DatabaseDefaults, PostgresConfig, SqliteConfig};
use crate::settings::environment;
use crate::settings::environment::{NonZeroUsize, VarError};
use crate::settings::web_search;
use crate::settings::web_search::{WebSearchFileConfig, WebSearchProviderConfig};
use crate::text;

verus! {

/// Comma-separated hosts that MCP servers may be reached at.
pub const MCP_ALLOWED_HOSTS_ENV: &'static str = "AGENTIC_MCP_ALLOWED_HOSTS";

/// Environment override for the number of tool calls that the gateway runs at once.
pub const MAX_CONCURRENT_GATEWAY_CALLS_ENV: &'static str = "AGENTIC_MAX_CONCURRENT_GATEWAY_CALLS";

/// Tool aliases that a generated configuration file records.
pub const MESSAGES_GATEWAY_TOOL_ALIASES_ENV: &'static str = "MESSAGES_GATEWAY_TOOL_ALIASES";

// ---------------------------------------------------------------------------
// Settings
// ---------------------------------------------------------------------------

/// Inbound bearer-token authentication.
#[derive(Debug, PartialEq, Eq)]
pub struct OidcConfig {
    pub issuer: String,
    pub audience: String,
}

/// The arguments that every command takes.
#[derive(Debug, PartialEq, Eq)]
pub struct CommonArgs {
    pub openai_api_key: Option<String>,
    pub oidc_issuer: Option<String>,
    pub oidc_audience: Option<String>,
    pub gateway_host: String,
    pub gateway_port: u16,
    pub skip_llm_ready_check: bool,
    pub max_request_body_size_bytes: Option<NonZeroUsize>,
    pub db_url: Option<String>,
}

/// An MCP server that the configuration file declares, with its definition as written.
#[derive(Debug, PartialEq, Eq)]
pub struct McpServer {
    pub name: String,
    pub definition: String,
}

/// The `[mcp]` part of a configuration file.
#[derive(Debug, PartialEq, Eq)]
pub struct McpFileConfig {
    pub allowed_hosts: Vec<String>,
}

/// The `[server]` part of a configuration file.
#[derive(Debug, PartialEq, Eq)]
pub struct ServerFileConfig {
    pub max_request_body_size_bytes: Option<NonZeroUsize>,
}

/// The `[tools]` part of a configuration file.
#[derive(Debug, PartialEq, Eq)]
pub struct ToolsFileConfig {
    pub max_concurrent_gateway_calls: Option<NonZeroUsize>,
}

/// The `[messages_gateway]` part of a configuration file.
#[derive(Debug, PartialEq, Eq)]
pub struct MessagesGatewayFileConfig {
    pub tool_aliases: Option<String>,
}

/// A configuration file.
#[derive(Debug, PartialEq, Eq)]
pub struct FileConfig {
    pub llm_api_base: Option<String>,
    pub database_url: Option<String>,
    pub web_search: WebSearchFileConfig,
    pub mcp: McpFileConfig,
    pub server: ServerFileConfig,
    pub tools: ToolsFileConfig,
    pub messages_gateway: MessagesGatewayFileConfig,
    pub mcp_servers: Vec<McpServer>,
}

/// What the tools run with.
#[derive(Debug, PartialEq, Eq)]
pub struct ToolRuntimeConfig {
    pub web_search: WebSearchProviderConfig,
    pub mcp_servers: Vec<McpServer>,
    pub mcp_allowed_hosts: Vec<String>,
    pub messages_gateway_tool_aliases: Option<String>,
    pub max_concurrent_gateway_calls: NonZeroUsize,
}

/// What the gateway runs with.
#[derive(Debug, PartialEq, Eq)]
pub struct Config {
    pub llm_api_base: String,
    pub openai_api_key: Option<String>,
    pub skip_llm_ready_check: bool,
    pub db_url: Option<String>,
    pub postgres: PostgresConfig,
    pub sqlite: SqliteConfig,
    pub tools: ToolRuntimeConfig,
}

/// How the gateway listens.
#[derive(Debug, PartialEq, Eq)]
pub struct GatewayOptions {
    pub host: String,
    pub port: u16,
    pub max_request_body_size: NonZeroUsize,
    pub oidc: Option<OidcConfig>,
}

/// What the settings are where nothing says otherwise.
#[derive(Debug, Clone, Copy, PartialEq, Eq)]
pub struct GatewayDefaults {
    pub database: DatabaseDefaults,
    pub max_concurrent_gateway_calls: NonZeroUsize,
    pub max_request_body_size: NonZeroUsize,
}

// ---------------------------------------------------------------------------
// Models
// ---------------------------------------------------------------------------

/// The declared MCP servers as values.
pub open spec fn server_values(servers: Seq<McpServer>) -> Seq<(Seq<char>, Seq<char>)> {
    servers.map_values(|server: McpServer| (server.name@, server.definition@))
}

/// A configuration file as a value.
pub struct FileValues {
    pub llm_api_base: Option<Seq<char>>,
    pub database_url: Option<Seq<char>>,
    pub web_search: web_search::FileValues,
    pub allowed_hosts: Seq<Seq<char>>,
    pub max_request_body_size_bytes: Option<usize>,
    pub max_concurrent_gateway_calls: Option<usize>,
    pub tool_aliases: Option<Seq<char>>,
    pub mcp_servers: Seq<(Seq<char>, Seq<char>)>,
}

/// The gateway's configuration as a value.
pub struct ConfigValues {
    pub llm_api_base: Seq<char>,
    pub openai_api_key: Option<Seq<char>>,
    pub skip_llm_ready_check: bool,
    pub db_url: Option<Seq<char>>,
    pub postgres: PostgresConfig,
    pub sqlite: SqliteConfig,
    pub web_search: web_search::ProviderValues,
    pub mcp_servers: Seq<(Seq<char>, Seq<char>)>,
    pub mcp_allowed_hosts: Seq<Seq<char>>,
    pub tool_aliases: Option<Seq<char>>,
    pub max_concurrent_gateway_calls: usize,
}

/// How the gateway listens, as a value.
pub struct OptionsValues {
    pub host: Seq<char>,
    pub port: u16,
    pub max_request_body_size: usize,
    pub oidc: Option<(Seq<char>, Seq<char>)>,
}

/// Issuer and audience, where authentication is set up.
pub open spec fn oidc_values(oidc: Option<OidcConfig>) -> Option<(Seq<char>, Seq<char>)> {
    match oidc {
        Some(config) => Some((config.issuer@, config.audience@)),
        None => None,
    }
}

impl View for FileConfig {
    type V = FileValues;

    open spec fn view(&self) -> FileValues {
        FileValues {
            llm_api_base: text::opt_text(self.llm_api_base),
            database_url: text::opt_text(self.database_url),
            web_search: self.web_search@,
            allowed_hosts: text::texts(self.mcp.allowed_hosts@),
            max_request_body_size_bytes: environment::opt_number(self.server.max_request_body_size_bytes),
            max_concurrent_gateway_calls: environment::opt_number(self.tools.max_concurrent_gateway_calls),
            tool_aliases: text::opt_text(self.messages_gateway.tool_aliases),
            mcp_servers: server_values(self.mcp_servers@),
        }
    }
}

impl View for Config {
    type V = ConfigValues;

    open spec fn view(&self) -> ConfigValues {
        ConfigValues {
            llm_api_base: self.llm_api_base@,
            openai_api_key: text::opt_text(self.openai_api_key),
            skip_llm_ready_check: self.skip_llm_ready_check,
            db_url: text::opt_text(self.db_url),
            postgres: self.postgres,
            sqlite: self.sqlite,
            web_search: self.tools.web_search@,
            mcp_servers: server_values(self.tools.mcp_servers@),
            mcp_allowed_hosts: text::texts(self.tools.mcp_allowed_hosts@),
            tool_aliases: text::opt_text(self.tools.messages_gateway_tool_aliases),
            max_concurrent_gateway_calls: self.tools.max_concurrent_gateway_calls.number(),
        }
    }
}

impl View for GatewayOptions {
    type V = OptionsValues;

    open spec fn view(&self) -> OptionsValues {
        OptionsValues {
            host: self.host@,
            port: self.port,
            max_request_body_size: self.max_request_body_size.number(),
            oidc: oidc_values(self.oidc),
        }
    }
}

/// A configuration file that says nothing.
pub open spec fn empty_file() -> FileValues {
    FileValues {
        llm_api_base: None,
        database_url: None,
        web_search: web_search::empty_file(),
        allowed_hosts: Seq::empty(),
        max_request_body_size_bytes: None,
        max_concurrent_gateway_calls: None,
        tool_aliases: None,
        mcp_servers: Seq::empty(),
    }
}

/// What selects the storage engine of a database URL, as a function.
pub type BackendSelection = spec_fn(Seq<char>) -> Result<DatabaseBackend, Seq<char>>;

/// Every answer of `backend_of` is what `selection` says.
pub open spec fn selects<B: Fn(&str) -> Result<DatabaseBackend, String>>(
    backend_of: B,
    selection: BackendSelection,
) -> bool {
    forall|url: &str, backend: Result<DatabaseBackend, String>| #[trigger]
        call_ensures(backend_of, (url,), backend) ==> text::parsed(backend) == selection(url@)
}

/// What sets authentication up from an issuer and an audience, as a function.
pub type OidcConstruction = spec_fn(Seq<char>, Seq<char>) -> Result<(Seq<char>, Seq<char>), Seq<char>>;

/// The outcome of setting authentication up, as a value.
pub open spec fn oidc_outcome(r: Result<OidcConfig, String>) -> Result<(Seq<char>, Seq<char>), Seq<char>> {
    match r {
        Ok(config) => Ok((config.issuer@, config.audience@)),
        Err(why) => Err(why@),
    }
}

/// Every answer of `construct` is what `construction` says.
pub open spec fn constructs<C: Fn(&str, &str) -> Result<OidcConfig, String>>(
    construct: C,
    construction: OidcConstruction,
) -> bool {
    forall|issuer: &str, audience: &str, r: Result<OidcConfig, String>| #[trigger]
        call_ensures(construct, (issuer, audience), r) ==> oidc_outcome(r) == construction(issuer@, audience@)
}

/// Authentication takes an issuer and an audience, or neither; whether the two can be
/// used is the construction's to say.
pub open spec fn oidc_setting(
    issuer: Option<Seq<char>>,
    audience: Option<Seq<char>>,
    construction: OidcConstruction,
) -> Result<Option<(Seq<char>, Seq<char>)>, Seq<char>> {
    match (issuer, audience) {
        (None, None) => Ok(None),
        (Some(issuer), Some(audience)) => match construction(issuer, audience) {
            Ok(pair) => Ok(Some(pair)),
            Err(why) => Err(why),
        },
        _ => Err("OIDC_ISSUER and OIDC_AUDIENCE must be configured together"@),
    }
}

/// The database URL: the argument, the file, the default.
pub open spec fn database_url(
    argument: Option<Seq<char>>,
    file: Option<Seq<char>>,
    default: Result<Seq<char>, Seq<char>>,
) -> Result<Seq<char>, Seq<char>> {
    match argument {
        Some(url) => Ok(url),
        None => match file {
            Some(url) => Ok(url),
            None => default,
        },
    }
}

/// The hosts that MCP servers may be reached at: the environment, the file.
pub open spec fn allowed_hosts(file: Seq<Seq<char>>, value: environment::RawVar) -> Seq<Seq<char>> {
    match environment::clean_reading(value) {
        Some(list) => parts::comma_separated(list),
        None => file,
    }
}

/// A text as an owned result.
pub open spec fn text_outcome(r: Result<String, Error>) -> Result<Seq<char>, Seq<char>> {
    match r {
        Ok(text) => Ok(text@),
        Err(error) => Err(error@),
    }
}

/// The configuration that arguments, file, environment and defaults give: the first
/// invalid setting, in the order of the steps, refuses it all.
pub open spec fn configuration(
    llm_api_base: Seq<char>,
    common: CommonArgs,
    file: FileValues,
    model: environment::RawEnvironment,
    default_url: Result<Seq<char>, Seq<char>>,
    selection: BackendSelection,
    defaults: GatewayDefaults,
) -> Result<ConfigValues, Seq<char>> {
    match database_url(text::opt_text(common.db_url), file.database_url, default_url) {
        Err(why) => Err(why),
        Ok(url) => match database::database_settings(selection(url), model, defaults.database) {
            Err(why) => Err(why),
            Ok((postgres, sqlite)) => match web_search::web_search_settings(
                file.web_search,
                environment::cleaned_environment(model),
            ) {
                Err(why) => Err(why),
                Ok(web_search) => match environment::nonzero_setting(
                    MAX_CONCURRENT_GATEWAY_CALLS_ENV@,
                    model(MAX_CONCURRENT_GATEWAY_CALLS_ENV@),
                    match file.max_concurrent_gateway_calls {
                        Some(calls) => calls,
                        None => defaults.max_concurrent_gateway_calls.number(),
                    },
                ) {
                    Err(why) => Err(why),
                    Ok(max_concurrent_gateway_calls) => Ok(
                        ConfigValues {
                            llm_api_base,
                            openai_api_key: text::opt_text(common.openai_api_key),
                            skip_llm_ready_check: common.skip_llm_ready_check,
                            db_url: Some(url),
                            postgres,
                            sqlite,
                            web_search,
                            mcp_servers: file.mcp_servers,
                            mcp_allowed_hosts: allowed_hosts(file.allowed_hosts, model(MCP_ALLOWED_HOSTS_ENV@)),
                            tool_aliases: file.tool_aliases,
                            max_concurrent_gateway_calls,
                        },
                    ),
                },
            },
        },
    }
}

/// How the gateway listens, given arguments, file, environment and defaults.
pub open spec fn listening(
    common: CommonArgs,
    file: FileValues,
    oidc: Option<(Seq<char>, Seq<char>)>,
    value: environment::RawVar,
    default_size: usize,
) -> Result<OptionsValues, Seq<char>> {
    match environment::max_request_body_size_setting(
        environment::opt_number(common.max_request_body_size_bytes),
        file.max_request_body_size_bytes,
        value,
        default_size,
    ) {
        Err(why) => Err(why),
        Ok(max_request_body_size) => Ok(
            OptionsValues {
                host: common.gateway_host@,
                port: common.gateway_port,
                max_request_body_size,
                oidc,
            },
        ),
    }
}

/// The configuration file that is written where there is none.
pub open spec fn generated_values(llm_api_base: Seq<char>, model: environment::RawEnvironment) -> FileValues {
    let env = environment::cleaned_environment(model);
    FileValues {
        llm_api_base: Some(llm_api_base),
        database_url: None,
        web_search: web_search::generated_web_search_values(env),
        allowed_hosts: allowed_hosts(Seq::empty(), model(MCP_ALLOWED_HOSTS_ENV@)),
        max_request_body_size_bytes: environment::usable_number(env(environment::MAX_REQUEST_BODY_SIZE_ENV@)),
        max_concurrent_gateway_calls: environment::usable_number(env(MAX_CONCURRENT_GATEWAY_CALLS_ENV@)),
        tool_aliases: env(MESSAGES_GATEWAY_TOOL_ALIASES_ENV@),
        mcp_servers: Seq::empty(),
    }
}

// ---------------------------------------------------------------------------
// Copies
// ---------------------------------------------------------------------------

impl Default for FileConfig {
    fn default() -> (file: Self)
        ensures
            file@ == empty_file(),
    {
        let file: FileConfig = FileConfig {
            llm_api_base: None,
            database_url: None,
            web_search: WebSearchFileConfig::default(),
            mcp: McpFileConfig { allowed_hosts: Vec::new() },
            server: ServerFileConfig { max_request_body_size_bytes: None },
            tools: ToolsFileConfig { max_concurrent_gateway_calls: None },
            messages_gateway: MessagesGatewayFileConfig { tool_aliases: None },
            mcp_servers: Vec::new(),
        };
        assert(file@.allowed_hosts =~= empty_file().allowed_hosts);
        assert(file@.mcp_servers =~= empty_file().mcp_servers);
        file
    }
}

/// A copy of the declared MCP servers.
fn copied_servers(list: &Vec<McpServer>) -> (copy: Vec<McpServer>)
    ensures
        server_values(copy@) == server_values(list@),
{
    let mut copy: Vec<McpServer> = Vec::new();
    let mut i: usize = 0;
    while i < list.len()
        invariant
            i <= list.len(),
            copy.len() == i,
            forall|j: int|
                0 <= j < i ==> (#[trigger] copy@[j]).name@ == list@[j].name@ && copy@[j].definition@
                    == list@[j].definition@,
        decreases list.len() - i,
    {
        copy.push(McpServer { name: list[i].name.clone(), definition: list[i].definition.clone() });
        i = i + 1;
    }
    assert(server_values(copy@) =~= server_values(list@));
    copy
}

// ---------------------------------------------------------------------------
// Resolution
// ---------------------------------------------------------------------------

/// Inbound authentication from its two settings. `construct` sets it up where both are
/// given, and is not called otherwise.
///
/// # Errors
/// Says that they belong together where only one is given, and hands on what
/// `construct` says where it cannot use the two.
pub fn oidc_config_from_values<C>(issuer: Option<&str>, audience: Option<&str>, construct: &C) -> (r: Result<
    Option<OidcConfig>,
    Error,
>) where C: Fn(&str, &str) -> Result<OidcConfig, String>
    requires
        forall|issuer: &str, audience: &str| call_requires(*construct, (issuer, audience)),
    ensures
        forall|construction: OidcConstruction| #[trigger]
            constructs(*construct, construction) ==> (match r {
                Ok(oidc) => Ok(oidc_values(oidc)),
                Err(error) => Err(error@),
            }) == oidc_setting(text::opt_str(issuer), text::opt_str(audience), construction),
        issuer is None && audience is None ==> r matches Ok(None),
        (issuer is None) != (audience is None) ==> (r matches Err(error) && error@
            == "OIDC_ISSUER and OIDC_AUDIENCE must be configured together"@),
{
    match (issuer, audience) {
        (None, None) => Ok(None),
        (Some(issuer), Some(audience)) => match construct(issuer, audience) {
            Ok(config) => Ok(Some(config)),
            Err(why) => Err(Error::Config(why)),
        },
        _ => Err(Error::Config("OIDC_ISSUER and OIDC_AUDIENCE must be configured together".to_owned())),
    }
}

/// The gateway's configuration.
///
/// `default_database_url` is looked at where neither the arguments nor the file give a
/// URL; `backend_of` tells which storage engine a URL selects.
///
/// # Errors
/// Names the first setting that cannot be used: the database URL, the storage
/// variables, the search variables, the number of concurrent calls.
pub fn build_config<E, B>(
    llm_api_base: String,
    common: &CommonArgs,
    file: &FileConfig,
    env: &E,
    default_database_url: Result<String, Error>,
    backend_of: &B,
    defaults: &GatewayDefaults,
) -> (r: Result<Config, Error>) where
    E: Fn(&str) -> Result<String, VarError>,
    B: Fn(&str) -> Result<DatabaseBackend, String>,

    requires
        forall|name: &str| call_requires(*env, (name,)),
        forall|url: &str| call_requires(*backend_of, (url,)),
    ensures
        forall|model: environment::RawEnvironment, selection: BackendSelection| #[trigger]
            environment::reads(*env, model) && #[trigger] selects(*backend_of, selection) ==> (match r {
                Ok(config) => Ok(config@),
                Err(error) => Err(error@),
            }) == configuration(
                llm_api_base@,
                *common,
                file@,
                model,
                text_outcome(default_database_url),
                selection,
                *defaults,
            ),
{
    let db_url: String = match &common.db_url {
        Some(url) => url.clone(),
        None => match &file.database_url {
            Some(url) => url.clone(),
            None => match default_database_url {
                Ok(url) => url,
                Err(error) => {
                    return Err(error);
                },
            },
        },
    };
    let (postgres, sqlite) = match database::database_configs_from_env(
        backend_of(db_url.as_str()),
        env,
        &defaults.database,
    ) {
        Ok(configs) => configs,
        Err(error) => {
            return Err(error);
        },
    };
    let lookup = |name: &str| -> (value: Option<String>)
        ensures
            forall|model: environment::RawEnvironment| #[trigger]
                environment::reads(*env, model) ==> text::opt_text(value) == environment::cleaned_environment(model)(
                    name@,
                ),
        { environment::environment_value(env, name) };
    assert forall|model: environment::RawEnvironment| #[trigger]
        environment::reads(*env, model) implies environment::answers(
        lookup,
        environment::cleaned_environment(model),
    ) by {}
    let web_search: WebSearchProviderConfig = web_search::resolve_web_search_config(&file.web_search, lookup)?;
    let mcp_allowed_hosts: Vec<String> = match environment::environment_value(env, MCP_ALLOWED_HOSTS_ENV) {
        Some(value) => parts::parse_comma_separated(value.as_str()),
        None => text::copied_texts(&file.mcp.allowed_hosts),
    };
    let max_concurrent_gateway_calls: NonZeroUsize = environment::parse_env_nonzero_usize_value(
        MAX_CONCURRENT_GATEWAY_CALLS_ENV,
        env(MAX_CONCURRENT_GATEWAY_CALLS_ENV),
        match file.tools.max_concurrent_gateway_calls {
            Some(calls) => calls,
            None => defaults.max_concurrent_gateway_calls,
        },
    )?;
    Ok(
        Config {
            llm_api_base,
            openai_api_key: common.openai_api_key.clone(),
            skip_llm_ready_check: common.skip_llm_ready_check,
            db_url: Some(db_url),
            postgres,
            sqlite,
            tools: ToolRuntimeConfig {
                web_search,
                mcp_servers: copied_servers(&file.mcp_servers),
                mcp_allowed_hosts,
                messages_gateway_tool_aliases: file.messages_gateway.tool_aliases.clone(),
                max_concurrent_gateway_calls,
            },
        },
    )
}

/// How the gateway listens.
///
/// # Errors
/// Names the request-size variable where it is looked at and cannot be used.
pub fn gateway_options<E>(
    common: &CommonArgs,
    file: &FileConfig,
    oidc: Option<OidcConfig>,
    env: &E,
    default_size: NonZeroUsize,
) -> (r: Result<GatewayOptions, Error>) where E: Fn(&str) -> Result<String, VarError>
    requires
        forall|name: &str| call_requires(*env, (name,)),
    ensures
        forall|model: environment::RawEnvironment| #[trigger]
            environment::reads(*env, model) ==> (match r {
                Ok(options) => Ok(options@),
                Err(error) => Err(error@),
            }) == listening(
                *common,
                file@,
                oidc_values(oidc),
                model(environment::MAX_REQUEST_BODY_SIZE_ENV@),
                default_size.number(),
            ),
{
    let max_request_body_size: NonZeroUsize = environment::resolve_max_request_body_size_value(
        common.max_request_body_size_bytes,
        file.server.max_request_body_size_bytes,
        env(environment::MAX_REQUEST_BODY_SIZE_ENV),
        default_size,
    )?;
    Ok(GatewayOptions { host: common.gateway_host.clone(), port: common.gateway_port, max_request_body_size, oidc })
}

/// The configuration file that is written where there is none: what the environment
/// says now, as far as it can be used.
pub fn generated_file_config<E>(llm_api_base: String, env: &E) -> (file: FileConfig) where
    E: Fn(&str) -> Result<String, VarError>,

    requires
        forall|name: &str| call_requires(*env, (name,)),
    ensures
        forall|model: environment::RawEnvironment| #[trigger]
            environment::reads(*env, model) ==> file@ == generated_values(llm_api_base@, model),
{
    let lookup = |name: &str| -> (value: Option<String>)
        ensures
            forall|model: environment::RawEnvironment| #[trigger]
                environment::reads(*env, model) ==> text::opt_text(value) == environment::cleaned_environment(model)(
                    name@,
                ),
        { environment::environment_value(env, name) };
    assert forall|model: environment::RawEnvironment| #[trigger]
        environment::reads(*env, model) implies environment::answers(
        lookup,
        environment::cleaned_environment(model),
    ) by {}
    let web_search: WebSearchFileConfig = web_search::generated_web_search_file_config(lookup);
    let allowed_hosts: Vec<String> = match environment::environment_value(env, MCP_ALLOWED_HOSTS_ENV) {
        Some(value) => parts::parse_comma_separated(value.as_str()),
        None => Vec::new(),
    };
    let max_request_body_size_bytes: Option<NonZeroUsize> = environment::parse_usable_nonzero(
        environment::environment_value(env, environment::MAX_REQUEST_BODY_SIZE_ENV),
    );
    let max_concurrent_gateway_calls: Option<NonZeroUsize> = environment::parse_usable_nonzero(
        environment::environment_value(env, MAX_CONCURRENT_GATEWAY_CALLS_ENV),
    );
    let tool_aliases: Option<String> = environment::environment_value(env, MESSAGES_GATEWAY_TOOL_ALIASES_ENV);
    let file: FileConfig = FileConfig {
        llm_api_base: Some(llm_api_base),
        database_url: None,
        web_search,
        mcp: McpFileConfig { allowed_hosts },
        server: ServerFileConfig { max_request_body_size_bytes },
        tools: ToolsFileConfig { max_concurrent_gateway_calls },
        messages_gateway: MessagesGatewayFileConfig { tool_aliases },
        mcp_servers: Vec::new(),
    };
    assert(file@.mcp_servers =~= Seq::empty());
    assert(allowed_hosts@.len() == 0 ==> file@.allowed_hosts =~= Seq::empty());
    file
}

// ---------------------------------------------------------------------------
// Laws
// ---------------------------------------------------------------------------

/// Authentication goes by both settings together: with neither it is off, with exactly
/// one it is refused, and with both it is what the construction makes of them.
pub proof fn law_issuer_and_audience_go_together(
    issuer: Option<Seq<char>>,
    audience: Option<Seq<char>>,
    construction: OidcConstruction,
)
    ensures
        oidc_setting(issuer, audience, construction) is Err <==> {
            ||| (issuer is Some) != (audience is Some)
            ||| issuer is Some && audience is Some && construction(issuer->Some_0, audience->Some_0) is Err
        },
        oidc_setting(issuer, audience, construction) matches Ok(Some(pair)) ==> issuer is Some && audience is Some
            && construction(issuer->Some_0, audience->Some_0) == Ok::<(Seq<char>, Seq<char>), Seq<char>>(pair),
        oidc_setting(issuer, audience, construction) == Ok::<Option<(Seq<char>, Seq<char>)>, Seq<char>>(None)
            <==> issuer is None && audience is None,
{
}

/// A database URL among the arguments settles the matter: neither the file's nor the
/// default one is looked at, and a default that cannot be had does no harm.
pub proof fn law_argument_settles_database_url(
    url: Seq<char>,
    file: Option<Seq<char>>,
    default: Result<Seq<char>, Seq<char>>,
)
    ensures
        database_url(Some(url), file, default) == Ok::<Seq<char>, Seq<char>>(url),
        database_url(None, Some(url), default) == Ok::<Seq<char>, Seq<char>>(url),
        database_url(None, None, default) == default,
{
}

/// Writing the generated file changes nothing but what only a file can say: in the
/// environment that it was made from, the gateway is configured as without a file, with
/// the tool aliases that the environment held.
pub proof fn law_generated_file_changes_aliases_alone(
    llm_api_base: Seq<char>,
    recorded_base: Seq<char>,
    common: CommonArgs,
    model: environment::RawEnvironment,
    default_url: Result<Seq<char>, Seq<char>>,
    selection: BackendSelection,
    defaults: GatewayDefaults,
)
    ensures
        configuration(
            llm_api_base,
            common,
            generated_values(recorded_base, model),
            model,
            default_url,
            selection,
            defaults,
        ) == match configuration(llm_api_base, common, empty_file(), model, default_url, selection, defaults) {
            Ok(config) => Ok(
                ConfigValues {
                    tool_aliases: environment::cleaned_environment(model)(MESSAGES_GATEWAY_TOOL_ALIASES_ENV@),
                    ..config
                },
            ),
            Err(why) => Err(why),
        },
{
    web_search::law_generated_file_changes_nothing(environment::cleaned_environment(model));
}

/// Writing the generated file does not change how the gateway listens.
pub proof fn law_generated_file_keeps_listening(
    recorded_base: Seq<char>,
    common: CommonArgs,
    model: environment::RawEnvironment,
    oidc: Option<(Seq<char>, Seq<char>)>,
    default_size: usize,
)
    ensures
        listening(
            common,
            generated_values(recorded_base, model),
            oidc,
            model(environment::MAX_REQUEST_BODY_SIZE_ENV@),
            default_size,
        ) == listening(
            common,
            empty_file(),
            oidc,
            model(environment::MAX_REQUEST_BODY_SIZE_ENV@),
            default_size,
        ),
{
}

/// The MCP servers that the file declares are the gateway's, in number, order and
/// content, whatever the environment says.
pub proof fn law_declared_servers_are_kept(
    llm_api_base: Seq<char>,
    common: CommonArgs,
    file: FileValues,
    model: environment::RawEnvironment,
    default_url: Result<Seq<char>, Seq<char>>,
    selection: BackendSelection,
    defaults: GatewayDefaults,
)
    ensures
        configuration(llm_api_base, common, file, model, default_url, selection, defaults) matches Ok(config)
            ==> config.mcp_servers == file.mcp_servers && config.tool_aliases == file.tool_aliases,
{
}

/// The ceilings that the gateway ends up with are never zero.
pub proof fn law_ceilings_are_positive(
    llm_api_base: Seq<char>,
    common: CommonArgs,
    file: FileValues,
    model: environment::RawEnvironment,
    default_url: Result<Seq<char>, Seq<char>>,
    selection: BackendSelection,
    defaults: GatewayDefaults,
)
    requires
        file.max_concurrent_gateway_calls matches Some(calls) ==> calls > 0,
        defaults.max_concurrent_gateway_calls.number() > 0,
    ensures
        configuration(llm_api_base, common, file, model, default_url, selection, defaults) matches Ok(config)
            ==> config.max_concurrent_gateway_calls > 0,
{
}

/// What a function answers for the environment, as values.
pub open spec fn is_environment_of<E: Fn(&str) -> Result<String, VarError>>(
    model: environment::RawEnvironment,
    env: E,
) -> bool {
    forall|name: &str, value: Result<String, VarError>| #[trigger]
        call_ensures(env, (name,), value) ==> match value {
            Ok(text) => model(name@) == environment::RawVar::Text(text@),
            Err(VarError::NotPresent) => model(name@) == environment::RawVar::Missing,
            Err(VarError::NotUnicode(why)) => model(name@) == environment::RawVar::Unreadable(why@),
        }
}

/// What a function answers for the engines of database URLs, as values.
pub open spec fn is_selection_of<B: Fn(&str) -> Result<DatabaseBackend, String>>(
    selection: BackendSelection,
    backend_of: B,
) -> bool {
    forall|url: &str, backend: Result<DatabaseBackend, String>| #[trigger]
        call_ensures(backend_of, (url,), backend) ==> match backend {
            Ok(engine) => selection(url@) == Ok::<DatabaseBackend, Seq<char>>(engine),
            Err(why) => selection(url@) == Err::<DatabaseBackend, Seq<char>>(why@),
        }
}

/// Two optional texts that say the same.
pub open spec fn same_optional_text(one: Option<String>, other: Option<String>) -> bool {
    match one {
        Some(text) => other is Some && other->Some_0@ == text@,
        None => other is None,
    }
}

/// The storage part of an accepted configuration: the engine that the configuration's own
/// database URL selects is set up from that engine's variables, setting by setting, and
/// the other engine is left at its defaults.
pub proof fn law_configured_storage_follows_the_selected_engine<
    E: Fn(&str) -> Result<String, VarError>,
    B: Fn(&str) -> Result<DatabaseBackend, String>,
>(
    llm_api_base: String,
    common: CommonArgs,
    file: FileConfig,
    env: E,
    model: environment::RawEnvironment,
    default_url: Result<String, Error>,
    backend_of: B,
    selection: BackendSelection,
    defaults: GatewayDefaults,
    r: Result<Config, Error>,
    config: Config,
    text: Seq<char>,
    number: nat,
)
    requires
        is_environment_of(model, env),
        is_selection_of(selection, backend_of),
        call_ensures(
            build_config::<E, B>,
            (llm_api_base, &common, &file, &env, default_url, &backend_of, &defaults),
            r,
        ),
        r == Ok::<Config, Error>(config),
    ensures
        config.db_url matches Some(url) && (selection(url@) matches Ok(engine) && match engine {
            DatabaseBackend::Postgres => {
                &&& database::is_postgres_read(model, defaults.database.postgres, config.postgres)
                &&& config.sqlite == defaults.database.sqlite
            },
            DatabaseBackend::Sqlite => {
                &&& database::is_untouched_postgres(defaults.database.postgres, config.postgres)
                &&& database::is_sqlite_read(model, defaults.database.sqlite, config.sqlite)
            },
            DatabaseBackend::Other => {
                &&& database::is_untouched_postgres(defaults.database.postgres, config.postgres)
                &&& config.sqlite == defaults.database.sqlite
            },
        }),
        ({
            let engine = selection(config.db_url->Some_0@)->Ok_0;
            &&& engine is Postgres && model("POSTGRES_MAX_CONNECTIONS"@) == environment::RawVar::Text(text)
                && text::unsigned_value(text) == Some(number) ==> number > 0 && config.postgres.max_connections
                == number
            &&& engine is Sqlite && model("SQLITE_MAX_CONNECTIONS"@) == environment::RawVar::Text(text)
                && text::unsigned_value(text) == Some(number) ==> number > 0 && config.sqlite.max_connections
                == number
            &&& engine is Sqlite && model("SQLITE_MMAP_SIZE_BYTES"@) == environment::RawVar::Text(text)
                && text::unsigned_value(text) == Some(number) ==> config.sqlite.mmap_size_bytes == number
        }),
{
    assert(environment::reads(env, model));
    assert(selects(backend_of, selection));
    let args = seq![(llm_api_base, &common, &file, &env, default_url, &backend_of, &defaults)][0];
    assert(args.3 == &env && args.5 == &backend_of);
    let values = configuration(
        llm_api_base@,
        common,
        file@,
        model,
        text_outcome(default_url),
        selection,
        defaults,
    );
    assert(values == Ok::<ConfigValues, Seq<char>>(config@));
    let url = values->Ok_0.db_url->Some_0;
    assert(config.db_url is Some && config.db_url->Some_0@ == url);
    database::law_storage_settings_follow_the_selected_engine(selection(url), model, defaults.database);
}

/// The rest of an accepted configuration: the base URL, key and readiness flag are the
/// caller's, the database URL is the argument's, the file's or the default, in that
/// order, and the tools run with what the file, the environment and the defaults give.
pub proof fn law_configured_settings_follow_their_sources<
    E: Fn(&str) -> Result<String, VarError>,
    B: Fn(&str) -> Result<DatabaseBackend, String>,
>(
    llm_api_base: String,
    common: CommonArgs,
    file: FileConfig,
    env: E,
    model: environment::RawEnvironment,
    default_url: Result<String, Error>,
    backend_of: B,
    selection: BackendSelection,
    defaults: GatewayDefaults,
    r: Result<Config, Error>,
    config: Config,
)
    requires
        is_environment_of(model, env),
        is_selection_of(selection, backend_of),
        call_ensures(
            build_config::<E, B>,
            (llm_api_base, &common, &file, &env, default_url, &backend_of, &defaults),
            r,
        ),
        r == Ok::<Config, Error>(config),
    ensures
        config.llm_api_base@ == llm_api_base@,
        same_optional_text(config.openai_api_key, common.openai_api_key),
        config.skip_llm_ready_check == common.skip_llm_ready_check,
        config.db_url matches Some(url) && if common.db_url is Some {
            url@ == common.db_url->Some_0@
        } else if file.database_url is Some {
            url@ == file.database_url->Some_0@
        } else {
            default_url is Ok && url@ == default_url->Ok_0@
        },
        config.tools.mcp_servers@.len() == file.mcp_servers@.len(),
        forall|i: int|
            0 <= i < file.mcp_servers@.len() ==> config.tools.mcp_servers@[i].name@ == (#[trigger] file.mcp_servers@[i]).name@
                && config.tools.mcp_servers@[i].definition@ == file.mcp_servers@[i].definition@,
        same_optional_text(config.tools.messages_gateway_tool_aliases, file.messages_gateway.tool_aliases),
        text::texts(config.tools.mcp_allowed_hosts@) == match model("AGENTIC_MCP_ALLOWED_HOSTS"@) {
            environment::RawVar::Text(list) => if text::trimmed(list).len() > 0 {
                parts::comma_separated(text::trimmed(list))
            } else {
                text::texts(file.mcp.allowed_hosts@)
            },
            _ => text::texts(file.mcp.allowed_hosts@),
        },
        environment::number_read(
            model("AGENTIC_MAX_CONCURRENT_GATEWAY_CALLS"@),
            if file.tools.max_concurrent_gateway_calls is Some {
                file.tools.max_concurrent_gateway_calls->Some_0.number() as nat
            } else {
                defaults.max_concurrent_gateway_calls.number() as nat
            },
            1,
            usize::MAX as nat,
        ) == Some(config.tools.max_concurrent_gateway_calls.number() as nat),
        web_search::web_search_settings(file.web_search@, environment::cleaned_environment(model)) == Ok::<
            web_search::ProviderValues,
            Seq<char>,
        >(config.tools.web_search@),
{
    assert(environment::reads(env, model));
    assert(selects(backend_of, selection));
    let args = seq![(llm_api_base, &common, &file, &env, default_url, &backend_of, &defaults)][0];
    assert(args.3 == &env && args.5 == &backend_of);
    let values = configuration(
        llm_api_base@,
        common,
        file@,
        model,
        text_outcome(default_url),
        selection,
        defaults,
    );
    assert(values == Ok::<ConfigValues, Seq<char>>(config@));
    let servers = config.tools.mcp_servers@;
    assert(server_values(servers) == server_values(file.mcp_servers@));
    assert(server_values(servers).len() == server_values(file.mcp_servers@).len());
    assert forall|i: int| 0 <= i < file.mcp_servers@.len() implies servers[i].name@ == (#[trigger] file.mcp_servers@[i]).name@
        && servers[i].definition@ == file.mcp_servers@[i].definition@ by {
        assert(server_values(servers)[i] == server_values(file.mcp_servers@)[i]);
    }
}

/// A configuration is refused where no database URL can be had, where the storage, the
/// search or the number of concurrent calls cannot be set up, and never otherwise; the
/// first of these, in that order, is what the refusal says.
pub proof fn law_first_refused_setting_counts<
    E: Fn(&str) -> Result<String, VarError>,
    B: Fn(&str) -> Result<DatabaseBackend, String>,
>(
    llm_api_base: String,
    common: CommonArgs,
    file: FileConfig,
    env: E,
    model: environment::RawEnvironment,
    default_url: Result<String, Error>,
    backend_of: B,
    selection: BackendSelection,
    defaults: GatewayDefaults,
    r: Result<Config, Error>,
)
    requires
        is_environment_of(model, env),
        is_selection_of(selection, backend_of),
        call_ensures(
            build_config::<E, B>,
            (llm_api_base, &common, &file, &env, default_url, &backend_of, &defaults),
            r,
        ),
    ensures
        ({
            let given = common.db_url is Some || file.database_url is Some;
            let url = if common.db_url is Some {
                common.db_url->Some_0@
            } else if file.database_url is Some {
                file.database_url->Some_0@
            } else {
                default_url->Ok_0@
            };
            let storage = database::database_settings(selection(url), model, defaults.database);
            let search = web_search::web_search_settings(file.web_search@, environment::cleaned_environment(model));
            let calls = environment::nonzero_setting(
                "AGENTIC_MAX_CONCURRENT_GATEWAY_CALLS"@,
                model("AGENTIC_MAX_CONCURRENT_GATEWAY_CALLS"@),
                if file.tools.max_concurrent_gateway_calls is Some {
                    file.tools.max_concurrent_gateway_calls->Some_0.number()
                } else {
                    defaults.max_concurrent_gateway_calls.number()
                },
            );
            &&& !given && default_url is Err ==> (r matches Err(error) && error@ == default_url->Err_0@)
            &&& given || default_url is Ok ==> {
                &&& r is Ok <==> storage is Ok && search is Ok && calls is Ok
                &&& storage matches Err(why) ==> (r matches Err(error) && error@ == why)
                &&& storage is Ok ==> (search matches Err(why) ==> (r matches Err(error) && error@ == why))
                &&& storage is Ok && search is Ok ==> (calls matches Err(why) ==> (r matches Err(error) && error@
                    == why))
            }
        }),
{
    assert(environment::reads(env, model));
    assert(selects(backend_of, selection));
    let args = seq![(llm_api_base, &common, &file, &env, default_url, &backend_of, &defaults)][0];
    assert(args.3 == &env && args.5 == &backend_of);
    assert((match r {
        Ok(config) => Ok(config@),
        Err(error) => Err(error@),
    }) == configuration(
        llm_api_base@,
        common,
        file@,
        model,
        text_outcome(default_url),
        selection,
        defaults,
    ));
}

/// The gateway listens where the arguments say, with the authentication that it is
/// handed, and with the request-size ceiling of the argument, the environment, the file
/// or the default, in that order.
pub proof fn law_listening_follows_its_sources<E: Fn(&str) -> Result<String, VarError>>(
    common: CommonArgs,
    file: FileConfig,
    oidc: Option<OidcConfig>,
    env: E,
    model: environment::RawEnvironment,
    default_size: NonZeroUsize,
    r: Result<GatewayOptions, Error>,
)
    requires
        is_environment_of(model, env),
        call_ensures(gateway_options::<E>, (&common, &file, oidc, &env, default_size), r),
    ensures
        r matches Ok(options) ==> {
            &&& options.host@ == common.gateway_host@
            &&& options.port == common.gateway_port
            &&& match oidc {
                Some(given) => options.oidc matches Some(kept) && (kept.issuer@ == given.issuer@ && kept.audience@
                    == given.audience@),
                None => options.oidc is None,
            }
        },
        ({
            let fallback = if file.server.max_request_body_size_bytes is Some {
                file.server.max_request_body_size_bytes->Some_0.number()
            } else {
                default_size.number()
            };
            match common.max_request_body_size_bytes {
                Some(size) => r matches Ok(options) && options.max_request_body_size.number() == size.number(),
                None => match environment::number_read(
                    model("AGENTIC_MAX_REQUEST_BODY_SIZE_BYTES"@),
                    fallback as nat,
                    1,
                    usize::MAX as nat,
                ) {
                    Some(number) => r matches Ok(options) && options.max_request_body_size.number() == number,
                    None => r matches Err(error) && environment::nonzero_setting(
                        "AGENTIC_MAX_REQUEST_BODY_SIZE_BYTES"@,
                        model("AGENTIC_MAX_REQUEST_BODY_SIZE_BYTES"@),
                        fallback,
                    ) == Err::<usize, Seq<char>>(error@),
                },
            }
        }),
{
    assert(environment::reads(env, model));
    let args = seq![(&common, &file, oidc, &env, default_size)][0];
    assert(args.3 == &env);
    assert((match r {
        Ok(options) => Ok(options@),
        Err(error) => Err(error@),
    }) == listening(
        common,
        file@,
        oidc_values(oidc),
        model(environment::MAX_REQUEST_BODY_SIZE_ENV@),
        default_size.number(),
    ));
}

/// A generated file records the base URL that it is handed and what the environment says
/// as far as it can be used, and neither a database URL nor a server.
pub proof fn law_generated_file_records_the_environment<E: Fn(&str) -> Result<String, VarError>>(
    llm_api_base: String,
    env: E,
    model: environment::RawEnvironment,
    file: FileConfig,
)
    requires
        is_environment_of(model, env),
        call_ensures(generated_file_config::<E>, (llm_api_base, &env), file),
    ensures
        file.llm_api_base matches Some(base) && base@ == llm_api_base@,
        file.database_url is None,
        file.mcp_servers@.len() == 0,
        text::texts(file.mcp.allowed_hosts@) == match model("AGENTIC_MCP_ALLOWED_HOSTS"@) {
            environment::RawVar::Text(list) => if text::trimmed(list).len() > 0 {
                parts::comma_separated(text::trimmed(list))
            } else {
                Seq::empty()
            },
            _ => Seq::empty(),
        },
        match model("AGENTIC_MAX_REQUEST_BODY_SIZE_BYTES"@) {
            environment::RawVar::Text(text) => environment::opt_number(file.server.max_request_body_size_bytes)
                == match text::unsigned_value(text::trimmed(text)) {
                Some(number) => if 1 <= number <= usize::MAX {
                    Some(number as usize)
                } else {
                    None
                },
                None => None,
            },
            _ => file.server.max_request_body_size_bytes is None,
        },
        match model("AGENTIC_MAX_CONCURRENT_GATEWAY_CALLS"@) {
            environment::RawVar::Text(text) => environment::opt_number(file.tools.max_concurrent_gateway_calls)
                == match text::unsigned_value(text::trimmed(text)) {
                Some(number) => if 1 <= number <= usize::MAX {
                    Some(number as usize)
                } else {
                    None
                },
                None => None,
            },
            _ => file.tools.max_concurrent_gateway_calls is None,
        },
        match model("MESSAGES_GATEWAY_TOOL_ALIASES"@) {
            environment::RawVar::Text(text) => if text::trimmed(text).len() > 0 {
                file.messages_gateway.tool_aliases matches Some(aliases) && aliases@ == text::trimmed(text)
            } else {
                file.messages_gateway.tool_aliases is None
            },
            _ => file.messages_gateway.tool_aliases is None,
        },
        file.web_search@ == web_search::generated_web_search_values(environment::cleaned_environment(model)),
{
    assert(environment::reads(env, model));
    let args = seq![(llm_api_base, &env)][0];
    assert(args.1 == &env);
    assert(file@ == generated_values(llm_api_base@, model));
    assert(server_values(file.mcp_servers@).len() == file.mcp_servers@.len());
}

/// Authentication is set up from both of its settings, by what constructs it, and from
/// nothing less.
pub proof fn law_authentication_takes_both_settings<C: Fn(&str, &str) -> Result<OidcConfig, String>>(
    issuer: Option<&str>,
    audience: Option<&str>,
    construct: C,
    construction: OidcConstruction,
    r: Result<Option<OidcConfig>, Error>,
)
    requires
        forall|given: &str, meant: &str, made: Result<OidcConfig, String>| #[trigger]
            call_ensures(construct, (given, meant), made) ==> match made {
                Ok(config) => construction(given@, meant@) == Ok::<(Seq<char>, Seq<char>), Seq<char>>(
                    (config.issuer@, config.audience@),
                ),
                Err(why) => construction(given@, meant@) == Err::<(Seq<char>, Seq<char>), Seq<char>>(why@),
            },
        call_ensures(oidc_config_from_values::<C>, (issuer, audience, &construct), r),
    ensures
        match (issuer, audience) {
            (Some(given), Some(meant)) => match construction(given@, meant@) {
                Ok((kept_issuer, kept_audience)) => r matches Ok(Some(config)) && (config.issuer@ == kept_issuer
                    && config.audience@ == kept_audience),
                Err(why) => r matches Err(error) && error@ == why,
            },
            (None, None) => r matches Ok(made) && made is None,
            _ => r matches Err(error) && error@ == "OIDC_ISSUER and OIDC_AUDIENCE must be configured together"@,
        },
{
    assert(constructs(construct, construction));
    let args = seq![(issuer, audience, &construct)][0];
    assert(args.2 == &construct);
}

/// A configuration file that says nothing says nothing anywhere.
pub proof fn law_default_file_says_nothing(file: FileConfig)
    requires
        call_ensures(FileConfig::default, (), file),
    ensures
        file.llm_api_base is None,
        file.database_url is None,
        file.mcp.allowed_hosts@.len() == 0,
        file.server.max_request_body_size_bytes is None,
        file.tools.max_concurrent_gateway_calls is None,
        file.messages_gateway.tool_aliases is None,
        file.mcp_servers@.len() == 0,
        file.web_search.provider is None,
        file.web_search.base_url is None,
        file.web_search.api_key_env is None,
        file.web_search.max_concurrent_queries is None,
{
    assert(text::texts(file.mcp.allowed_hosts@).len() == file.mcp.allowed_hosts@.len());
    assert(server_values(file.mcp_servers@).len() == file.mcp_servers@.len());
}

} // verus!
