use agentic_server::error::Error;
use agentic_server::settings::database::{DatabaseBackend, DatabaseDefaults, PostgresDefaults, SqliteConfig};
use agentic_server::settings::environment::{NonZeroUsize, SqliteTempStore, VarError};
use agentic_server::settings::gateway::{
    build_config, gateway_options, generated_file_config, oidc_config_from_values, CommonArgs, Config, FileConfig,
    GatewayDefaults, McpServer, OidcConfig,
};
use agentic_server::settings::launch::{decimal_text, plan_launch, Launch, ServeCommand};

fn nonzero(value: usize) -> NonZeroUsize {
    NonZeroUsize::new(value).expect("nonzero")
}

fn defaults() -> GatewayDefaults {
    GatewayDefaults {
        database: DatabaseDefaults {
            sqlite: SqliteConfig {
                max_connections: 5,
                journal_size_limit_bytes: 64,
                temp_store: SqliteTempStore::Memory,
                mmap_size_bytes: 128,
            },
            postgres: PostgresDefaults {
                max_connections: 10,
                acquire_timeout_seconds: 30,
                lock_timeout_seconds: 15,
                migration_timeout_seconds: 300,
                statement_timeout_seconds: 60,
                idle_timeout_seconds: 600,
                max_lifetime_seconds: 1800,
            },
        },
        max_concurrent_gateway_calls: nonzero(8),
        max_request_body_size: nonzero(1_000),
    }
}

fn common() -> CommonArgs {
    CommonArgs {
        openai_api_key: Some("key".to_owned()),
        oidc_issuer: None,
        oidc_audience: None,
        gateway_host: "0.0.0.0".to_owned(),
        gateway_port: 9000,
        skip_llm_ready_check: true,
        max_request_body_size_bytes: None,
        db_url: None,
    }
}

fn raw_env<'a>(pairs: &'a [(&'a str, &'a str)]) -> impl Fn(&str) -> Result<String, VarError> + 'a {
    move |name: &str| {
        pairs
            .iter()
            .find(|(key, _)| *key == name)
            .map(|(_, value)| (*value).to_owned())
            .ok_or(VarError::NotPresent)
    }
}

fn backend_of(url: &str) -> Result<DatabaseBackend, String> {
    if url.starts_with("sqlite:") {
        Ok(DatabaseBackend::Sqlite)
    } else if url.starts_with("postgres:") {
        Ok(DatabaseBackend::Postgres)
    } else {
        Err("unknown scheme".to_owned())
    }
}

fn build(common: &CommonArgs, file: &FileConfig, pairs: &[(&str, &str)]) -> Result<Config, Error> {
    build_config(
        "http://llm".to_owned(),
        common,
        file,
        &raw_env(pairs),
        Ok("sqlite://default.db".to_owned()),
        &backend_of,
        &defaults(),
    )
}

fn construct(issuer: &str, audience: &str) -> Result<OidcConfig, String> {
    if issuer.starts_with("https://") {
        Ok(OidcConfig {
            issuer: issuer.to_owned(),
            audience: audience.to_owned(),
        })
    } else {
        Err("the issuer must be an HTTPS URL".to_owned())
    }
}

#[test]
fn oidc_configuration_requires_issuer_and_audience_together() {
    assert!(oidc_config_from_values(None, None, &construct).expect("disabled OIDC").is_none());
    assert!(oidc_config_from_values(Some("https://issuer.example"), None, &construct).is_err());
    assert!(oidc_config_from_values(None, Some("agentic-api"), &construct).is_err());
    assert!(
        oidc_config_from_values(Some("https://issuer.example"), Some("agentic-api"), &construct)
            .expect("complete OIDC configuration")
            .is_some()
    );
}

#[test]
fn oidc_values_are_kept_and_refusals_handed_on() {
    assert_eq!(
        oidc_config_from_values(Some("https://issuer.example"), Some("agentic-api"), &construct),
        Ok(Some(OidcConfig {
            issuer: "https://issuer.example".to_owned(),
            audience: "agentic-api".to_owned(),
        }))
    );
    assert_eq!(
        oidc_config_from_values(None, Some("agentic-api"), &construct).unwrap_err().to_string(),
        "OIDC_ISSUER and OIDC_AUDIENCE must be configured together"
    );
    assert_eq!(
        oidc_config_from_values(Some("nonsense"), Some("agentic-api"), &construct).unwrap_err().to_string(),
        "the issuer must be an HTTPS URL"
    );
}

#[test]
fn database_url_comes_from_argument_then_file_then_default() {
    let mut args = common();
    let mut file = FileConfig::default();
    assert_eq!(
        build(&args, &file, &[]).expect("default").db_url.as_deref(),
        Some("sqlite://default.db")
    );
    file.database_url = Some("postgres://file".to_owned());
    assert_eq!(
        build(&args, &file, &[]).expect("file").db_url.as_deref(),
        Some("postgres://file")
    );
    args.db_url = Some("sqlite://argument.db".to_owned());
    assert_eq!(
        build(&args, &file, &[]).expect("argument").db_url.as_deref(),
        Some("sqlite://argument.db")
    );
}

#[test]
fn missing_default_database_url_matters_only_where_it_is_needed() {
    let failing = || Err(Error::Config("no home directory".to_owned()));
    let mut args = common();
    let built = build_config(
        "http://llm".to_owned(),
        &args,
        &FileConfig::default(),
        &raw_env(&[]),
        failing(),
        &backend_of,
        &defaults(),
    );
    assert_eq!(built.unwrap_err().to_string(), "no home directory");
    args.db_url = Some("sqlite://argument.db".to_owned());
    let built = build_config(
        "http://llm".to_owned(),
        &args,
        &FileConfig::default(),
        &raw_env(&[]),
        failing(),
        &backend_of,
        &defaults(),
    );
    assert!(built.is_ok());
}

#[test]
fn unknown_database_urls_are_refused() {
    let mut args = common();
    args.db_url = Some("mysql://x".to_owned());
    assert_eq!(
        build(&args, &FileConfig::default(), &[]).unwrap_err().to_string(),
        "invalid DATABASE_URL: unknown scheme"
    );
}

#[test]
fn configuration_carries_arguments_file_and_environment() {
    let mut file = FileConfig::default();
    file.mcp.allowed_hosts = vec!["file.example".to_owned()];
    file.mcp_servers = vec![McpServer {
        name: "docs".to_owned(),
        definition: "url = \"https://docs\"".to_owned(),
    }];
    file.messages_gateway.tool_aliases = Some("a=b".to_owned());
    file.tools.max_concurrent_gateway_calls = NonZeroUsize::new(4);

    let config = build(&common(), &file, &[]).expect("from file");
    assert_eq!(config.llm_api_base, "http://llm");
    assert_eq!(config.openai_api_key.as_deref(), Some("key"));
    assert!(config.skip_llm_ready_check);
    assert_eq!(config.tools.mcp_allowed_hosts, vec!["file.example".to_owned()]);
    assert_eq!(config.tools.mcp_servers, file.mcp_servers);
    assert_eq!(config.tools.messages_gateway_tool_aliases.as_deref(), Some("a=b"));
    assert_eq!(config.tools.max_concurrent_gateway_calls.get(), 4);

    let config = build(
        &common(),
        &file,
        &[
            ("AGENTIC_MCP_ALLOWED_HOSTS", " one.example, two.example "),
            ("AGENTIC_MAX_CONCURRENT_GATEWAY_CALLS", "2"),
        ],
    )
    .expect("from environment");
    assert_eq!(
        config.tools.mcp_allowed_hosts,
        vec!["one.example".to_owned(), "two.example".to_owned()]
    );
    assert_eq!(config.tools.max_concurrent_gateway_calls.get(), 2);

    let config = build(&common(), &FileConfig::default(), &[]).expect("from defaults");
    assert_eq!(config.tools.max_concurrent_gateway_calls.get(), 8);
    assert!(config.tools.mcp_allowed_hosts.is_empty());
}

#[test]
fn malformed_concurrency_is_refused() {
    let error = build(
        &common(),
        &FileConfig::default(),
        &[("AGENTIC_MAX_CONCURRENT_GATEWAY_CALLS", "0")],
    )
    .unwrap_err();
    assert!(
        error
            .to_string()
            .starts_with("AGENTIC_MAX_CONCURRENT_GATEWAY_CALLS must be a positive integer: ")
    );
}

#[test]
fn listening_options_follow_arguments_and_environment() {
    let mut args = common();
    let size = |args: &CommonArgs, file: &FileConfig, pairs: &[(&str, &str)]| {
        gateway_options(args, file, None, &raw_env(pairs), nonzero(1_000)).map(|options| options.max_request_body_size.get())
    };
    let mut file = FileConfig::default();
    assert_eq!(size(&args, &file, &[]), Ok(1_000));
    file.server.max_request_body_size_bytes = NonZeroUsize::new(2_048);
    assert_eq!(size(&args, &file, &[]), Ok(2_048));
    assert_eq!(size(&args, &file, &[("AGENTIC_MAX_REQUEST_BODY_SIZE_BYTES", "8192")]), Ok(8_192));
    args.max_request_body_size_bytes = NonZeroUsize::new(4_096);
    assert_eq!(size(&args, &file, &[("AGENTIC_MAX_REQUEST_BODY_SIZE_BYTES", "bogus")]), Ok(4_096));

    let options = gateway_options(
        &args,
        &file,
        Some(OidcConfig {
            issuer: "i".to_owned(),
            audience: "a".to_owned(),
        }),
        &raw_env(&[]),
        nonzero(1_000),
    )
    .expect("options");
    assert_eq!(options.host, "0.0.0.0");
    assert_eq!(options.port, 9000);
    assert_eq!(options.oidc.map(|oidc| oidc.issuer), Some("i".to_owned()));
}

#[test]
fn generated_file_records_what_the_environment_says() {
    let file = generated_file_config(
        "http://127.0.0.1:8000".to_owned(),
        &raw_env(&[
            ("AGENTIC_WEB_SEARCH_PROVIDER", " brave "),
            ("AGENTIC_MCP_ALLOWED_HOSTS", "a,b"),
            ("AGENTIC_MAX_REQUEST_BODY_SIZE_BYTES", " 77 "),
            ("AGENTIC_MAX_CONCURRENT_GATEWAY_CALLS", "zero"),
            ("MESSAGES_GATEWAY_TOOL_ALIASES", " x=y "),
        ]),
    );
    assert_eq!(file.llm_api_base.as_deref(), Some("http://127.0.0.1:8000"));
    assert_eq!(file.database_url, None);
    assert_eq!(file.web_search.api_key_env.as_deref(), Some("BRAVE_API_KEY"));
    assert_eq!(file.mcp.allowed_hosts, vec!["a".to_owned(), "b".to_owned()]);
    assert_eq!(file.server.max_request_body_size_bytes, NonZeroUsize::new(77));
    assert_eq!(file.tools.max_concurrent_gateway_calls, None);
    assert_eq!(file.messages_gateway.tool_aliases.as_deref(), Some("x=y"));
    assert!(file.mcp_servers.is_empty());
}

#[test]
fn generated_file_changes_aliases_alone() {
    let pairs = [
        ("AGENTIC_WEB_SEARCH_PROVIDER", "brave"),
        ("AGENTIC_MCP_ALLOWED_HOSTS", "a,b"),
        ("MESSAGES_GATEWAY_TOOL_ALIASES", "x=y"),
    ];
    let generated = generated_file_config("http://other".to_owned(), &raw_env(&pairs));
    let mut with = build(&common(), &generated, &pairs).expect("with file");
    let without = build(&common(), &FileConfig::default(), &pairs).expect("without file");
    assert_eq!(with.tools.messages_gateway_tool_aliases.as_deref(), Some("x=y"));
    with.tools.messages_gateway_tool_aliases = None;
    assert_eq!(with, without);
}

#[test]
fn standalone_mode_needs_a_base_url() {
    let base = |argument: Option<&str>, file: Option<&str>| {
        plan_launch(None, argument.map(str::to_owned), file.map(str::to_owned))
    };
    assert_eq!(
        base(Some("http://argument"), Some("http://file")),
        Ok(Launch {
            llm_api_base: "http://argument".to_owned(),
            llm_args: None,
        })
    );
    assert_eq!(base(None, Some("http://file")).expect("file").llm_api_base, "http://file");
    assert_eq!(
        base(None, None).unwrap_err().to_string(),
        "standalone mode requires llm_api_base in config.toml, LLM_API_BASE, or --llm-api-base; use `agentic-server serve <model>` for integrated mode"
    );
}

#[test]
fn integrated_mode_starts_the_model_and_refuses_a_base_url() {
    let serve = || ServeCommand {
        model: "model-a".to_owned(),
        port: 8000,
        llm_args: vec!["--max-model-len".to_owned(), "4096".to_owned()],
    };
    let launch = plan_launch(Some(serve()), None, Some("http://file".to_owned())).expect("serve");
    assert_eq!(launch.llm_api_base, "http://127.0.0.1:8000");
    assert_eq!(
        launch.llm_args.expect("arguments"),
        vec!["--model", "model-a", "--port", "8000", "--max-model-len", "4096"]
    );
    assert_eq!(
        plan_launch(Some(serve()), Some("http://x".to_owned()), None).unwrap_err().to_string(),
        "--llm-api-base is only valid in standalone mode; remove it when using `serve`"
    );
}

#[test]
fn ports_are_written_in_decimal() {
    for port in [0, 7, 10, 99, 100, 8000, 65535] {
        assert_eq!(decimal_text(port), port.to_string());
    }
}
