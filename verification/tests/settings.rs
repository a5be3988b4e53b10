use std::time::Duration;

use agentic_server::error::Error;
use agentic_server::parts::parse_comma_separated;
use agentic_server::settings::database::{
    database_configs_from_env, postgres_config_from_env, sqlite_config_from_env, DatabaseBackend, DatabaseDefaults,
    PostgresDefaults, SqliteConfig,
};
use agentic_server::settings::environment::{
    clean_value, environment_value, parse_env_duration_value, parse_env_nonzero_usize_value,
    parse_env_optional_duration_value, parse_env_temp_store_value, parse_env_u32_value, parse_env_u64_value,
    parse_usable_nonzero, resolve_max_request_body_size_value, NonZeroUsize, SqliteTempStore, VarError,
};

const DEFAULT_SQLITE_MAX_CONNECTIONS: u32 = 5;
const DEFAULT_POSTGRES_MAX_CONNECTIONS: u32 = 10;
const DEFAULT_POSTGRES_ACQUIRE_TIMEOUT_SECONDS: u64 = 30;
const DEFAULT_POSTGRES_IDLE_TIMEOUT_SECONDS: u64 = 600;
const DEFAULT_POSTGRES_LOCK_TIMEOUT_SECONDS: u64 = 15;
const DEFAULT_POSTGRES_MIGRATION_TIMEOUT_SECONDS: u64 = 300;
const DEFAULT_POSTGRES_STATEMENT_TIMEOUT_SECONDS: u64 = 60;
const DEFAULT_POSTGRES_MAX_LIFETIME_SECONDS: u64 = 1800;

fn nonzero(value: usize) -> NonZeroUsize {
    NonZeroUsize::new(value).expect("nonzero")
}

fn database_defaults() -> DatabaseDefaults {
    DatabaseDefaults {
        sqlite: SqliteConfig {
            max_connections: DEFAULT_SQLITE_MAX_CONNECTIONS,
            journal_size_limit_bytes: 64,
            temp_store: SqliteTempStore::Memory,
            mmap_size_bytes: 128,
        },
        postgres: PostgresDefaults {
            max_connections: DEFAULT_POSTGRES_MAX_CONNECTIONS,
            acquire_timeout_seconds: DEFAULT_POSTGRES_ACQUIRE_TIMEOUT_SECONDS,
            lock_timeout_seconds: DEFAULT_POSTGRES_LOCK_TIMEOUT_SECONDS,
            migration_timeout_seconds: DEFAULT_POSTGRES_MIGRATION_TIMEOUT_SECONDS,
            statement_timeout_seconds: DEFAULT_POSTGRES_STATEMENT_TIMEOUT_SECONDS,
            idle_timeout_seconds: DEFAULT_POSTGRES_IDLE_TIMEOUT_SECONDS,
            max_lifetime_seconds: DEFAULT_POSTGRES_MAX_LIFETIME_SECONDS,
        },
    }
}

fn raw_env<'a>(pairs: &'a [(&'a str, &'a str)]) -> impl Fn(&str) -> Result<String, VarError> + 'a {
    move |name: &str| {
        pairs
            .iter()
            .find(|(key, _)| *key == name)
            .map(|(_, value)| (*value).to_owned())
            .ok_or(VarError::NotPresent)
    }
}

#[test]
fn sqlite_tuning_env_parser_uses_defaults_and_rejects_invalid_values() {
    assert_eq!(
        parse_env_u32_value(
            "SQLITE_MAX_CONNECTIONS",
            Err(VarError::NotPresent),
            DEFAULT_SQLITE_MAX_CONNECTIONS
        )
        .expect("default value"),
        DEFAULT_SQLITE_MAX_CONNECTIONS
    );
    assert_eq!(
        parse_env_u32_value(
            "SQLITE_MAX_CONNECTIONS",
            Ok("6".to_owned()),
            DEFAULT_SQLITE_MAX_CONNECTIONS
        )
        .expect("parsed value"),
        6
    );
    assert!(
        parse_env_u32_value(
            "SQLITE_MAX_CONNECTIONS",
            Ok("0".to_owned()),
            DEFAULT_SQLITE_MAX_CONNECTIONS
        )
        .is_err()
    );
    assert!(
        parse_env_u32_value(
            "SQLITE_MAX_CONNECTIONS",
            Ok("not-a-number".to_owned()),
            DEFAULT_SQLITE_MAX_CONNECTIONS
        )
        .is_err()
    );

    assert_eq!(
        parse_env_u64_value("SQLITE_MMAP_SIZE_BYTES", Err(VarError::NotPresent), 1_024).expect("default value"),
        1_024
    );
    assert_eq!(
        parse_env_u64_value("SQLITE_MMAP_SIZE_BYTES", Ok("4096".to_owned()), 1_024).expect("parsed value"),
        4_096
    );
    assert!(parse_env_u64_value("SQLITE_MMAP_SIZE_BYTES", Ok("not-a-number".to_owned()), 1_024).is_err());

    assert_eq!(
        parse_env_temp_store_value(Err(VarError::NotPresent)).expect("default temp store"),
        SqliteTempStore::Memory
    );
    assert_eq!(
        parse_env_temp_store_value(Ok("file".to_owned())).expect("file temp store"),
        SqliteTempStore::File
    );
    assert_eq!(
        parse_env_temp_store_value(Ok("2".to_owned())).expect("memory temp store"),
        SqliteTempStore::Memory
    );
    assert!(parse_env_temp_store_value(Ok("invalid".to_owned())).is_err());
}

#[test]
fn gateway_concurrency_env_parser_requires_a_nonzero_value() {
    let default = nonzero(8);
    assert_eq!(
        parse_env_nonzero_usize_value(
            "AGENTIC_MAX_CONCURRENT_GATEWAY_CALLS",
            Err(VarError::NotPresent),
            default,
        )
        .expect("default value"),
        default
    );
    assert_eq!(
        parse_env_nonzero_usize_value("AGENTIC_MAX_CONCURRENT_GATEWAY_CALLS", Ok("3".to_owned()), default,)
            .expect("positive value")
            .get(),
        3
    );
    assert!(
        parse_env_nonzero_usize_value("AGENTIC_MAX_CONCURRENT_GATEWAY_CALLS", Ok("0".to_owned()), default,).is_err()
    );
}

#[test]
fn postgres_timeout_parser_uses_defaults_and_allows_disabling_recycling() {
    assert_eq!(
        parse_env_duration_value(
            "POSTGRES_ACQUIRE_TIMEOUT_SECONDS",
            Err(VarError::NotPresent),
            DEFAULT_POSTGRES_ACQUIRE_TIMEOUT_SECONDS,
        )
        .expect("default acquire timeout"),
        Duration::from_secs(DEFAULT_POSTGRES_ACQUIRE_TIMEOUT_SECONDS)
    );
    assert_eq!(
        parse_env_duration_value(
            "POSTGRES_ACQUIRE_TIMEOUT_SECONDS",
            Ok("9".to_owned()),
            DEFAULT_POSTGRES_ACQUIRE_TIMEOUT_SECONDS,
        )
        .expect("explicit acquire timeout"),
        Duration::from_secs(9)
    );
    assert!(
        parse_env_duration_value(
            "POSTGRES_ACQUIRE_TIMEOUT_SECONDS",
            Ok("0".to_owned()),
            DEFAULT_POSTGRES_ACQUIRE_TIMEOUT_SECONDS,
        )
        .is_err()
    );
    assert_eq!(
        parse_env_optional_duration_value(
            "POSTGRES_IDLE_TIMEOUT_SECONDS",
            Ok("0".to_owned()),
            DEFAULT_POSTGRES_IDLE_TIMEOUT_SECONDS,
        )
        .expect("disabled idle timeout"),
        None
    );
    assert_eq!(
        parse_env_optional_duration_value(
            "POSTGRES_IDLE_TIMEOUT_SECONDS",
            Ok("45".to_owned()),
            DEFAULT_POSTGRES_IDLE_TIMEOUT_SECONDS,
        )
        .expect("explicit idle timeout"),
        Some(Duration::from_secs(45))
    );
    assert_eq!(
        parse_env_duration_value(
            "POSTGRES_LOCK_TIMEOUT_SECONDS",
            Err(VarError::NotPresent),
            DEFAULT_POSTGRES_LOCK_TIMEOUT_SECONDS,
        )
        .expect("default lock timeout"),
        Duration::from_secs(DEFAULT_POSTGRES_LOCK_TIMEOUT_SECONDS)
    );
    assert_eq!(
        parse_env_duration_value(
            "POSTGRES_MIGRATION_TIMEOUT_SECONDS",
            Err(VarError::NotPresent),
            DEFAULT_POSTGRES_MIGRATION_TIMEOUT_SECONDS,
        )
        .expect("default migration timeout"),
        Duration::from_secs(DEFAULT_POSTGRES_MIGRATION_TIMEOUT_SECONDS)
    );
    assert_eq!(
        parse_env_duration_value(
            "POSTGRES_STATEMENT_TIMEOUT_SECONDS",
            Err(VarError::NotPresent),
            DEFAULT_POSTGRES_STATEMENT_TIMEOUT_SECONDS,
        )
        .expect("default statement timeout"),
        Duration::from_secs(DEFAULT_POSTGRES_STATEMENT_TIMEOUT_SECONDS)
    );
    assert!(
        parse_env_u32_value(
            "POSTGRES_MAX_CONNECTIONS",
            Ok("0".to_owned()),
            DEFAULT_POSTGRES_MAX_CONNECTIONS,
        )
        .is_err()
    );
}

#[test]
fn max_request_body_size_is_configurable_from_cli_env_and_file() {
    let default = nonzero(32 * 1024 * 1024);
    let cli = NonZeroUsize::new(4_096);
    let file = NonZeroUsize::new(2_048);
    let missing = || Err(VarError::NotPresent);

    assert_eq!(
        resolve_max_request_body_size_value(None, None, missing(), default).expect("default value"),
        default
    );
    assert_eq!(
        resolve_max_request_body_size_value(None, file, missing(), default).expect("file value"),
        file.expect("nonzero")
    );
    assert_eq!(
        resolve_max_request_body_size_value(None, file, Ok("8192".to_owned()), default)
            .expect("environment overrides the file")
            .get(),
        8_192
    );
    assert_eq!(
        resolve_max_request_body_size_value(cli, file, Ok("8192".to_owned()), default)
            .expect("CLI overrides the environment")
            .get(),
        4_096
    );
}

#[test]
fn max_request_body_size_rejects_invalid_environment_overrides() {
    let default = nonzero(32 * 1024 * 1024);
    let cli = NonZeroUsize::new(4_096);

    assert!(resolve_max_request_body_size_value(None, None, Ok("0".to_owned()), default).is_err());
    assert!(resolve_max_request_body_size_value(None, None, Ok("-1".to_owned()), default).is_err());
    assert!(resolve_max_request_body_size_value(None, None, Ok("not-a-number".to_owned()), default).is_err());

    // An explicit CLI argument outranks the environment, so a stale or malformed
    // inherited value cannot block startup.
    assert_eq!(
        resolve_max_request_body_size_value(cli, None, Ok("0".to_owned()), default)
            .expect("CLI argument overrides a malformed environment value")
            .get(),
        4_096
    );
    assert_eq!(
        resolve_max_request_body_size_value(cli, None, Ok("not-a-number".to_owned()), default)
            .expect("CLI argument overrides an unparsable environment value")
            .get(),
        4_096
    );
}

#[test]
fn database_config_rejects_an_invalid_url() {
    let backend = Err("relative URL without a base: not a database URL".to_owned());
    let error = database_configs_from_env(backend, &raw_env(&[]), &database_defaults())
        .expect_err("invalid URL must be rejected");
    assert!(error.to_string().contains("invalid DATABASE_URL"));
}

#[test]
fn integer_diagnostics_name_the_variable() {
    let message = |error: Error| error.to_string();
    assert_eq!(
        message(parse_env_u64_value("N", Ok("x".to_owned()), 1).unwrap_err()),
        "N must be an unsigned integer: invalid digit found in string"
    );
    assert_eq!(
        message(parse_env_u64_value("N", Ok("18446744073709551616".to_owned()), 1).unwrap_err()),
        "N must be an unsigned integer: number too large to fit in target type"
    );
    assert_eq!(
        message(parse_env_u32_value("N", Ok(String::new()), 1).unwrap_err()),
        "N must be a positive integer: cannot parse integer from empty string"
    );
    assert_eq!(
        message(parse_env_u32_value("N", Ok("0".to_owned()), 1).unwrap_err()),
        "N must be greater than 0"
    );
    assert_eq!(
        message(parse_env_duration_value("N", Ok("0".to_owned()), 1).unwrap_err()),
        "N must be greater than 0"
    );
    assert!(
        message(parse_env_nonzero_usize_value("N", Ok("0".to_owned()), nonzero(1)).unwrap_err())
            .starts_with("N must be a positive integer: ")
    );
    assert_eq!(
        message(parse_env_temp_store_value(Ok("3".to_owned())).unwrap_err()),
        "SQLITE_TEMP_STORE must be one of default, file, memory, 0, 1, or 2"
    );
}

#[test]
fn numbers_are_read_as_decimal_digits() {
    let read = |text: &str| parse_env_u64_value("N", Ok(text.to_owned()), 1);
    assert_eq!(read("+17"), Ok(17));
    assert_eq!(read("007"), Ok(7));
    assert_eq!(read("18446744073709551615"), Ok(u64::MAX));
    assert!(read(" 7").is_err());
    assert!(read("+").is_err());
    assert!(read("-7").is_err());
    assert!(read("\u{661}").is_err());
    assert_eq!(parse_env_u32_value("N", Ok("4294967295".to_owned()), 1), Ok(u32::MAX));
    assert!(parse_env_u32_value("N", Ok("4294967296".to_owned()), 1).is_err());
}

#[test]
fn unreadable_variables_are_refused_even_where_a_default_exists() {
    let unreadable = || Err(VarError::NotUnicode("not unicode".to_owned()));
    assert_eq!(
        parse_env_u64_value("N", unreadable(), 1).unwrap_err().to_string(),
        "failed to read N: not unicode"
    );
    assert!(parse_env_u32_value("N", unreadable(), 1).is_err());
    assert!(parse_env_nonzero_usize_value("N", unreadable(), nonzero(1)).is_err());
    assert_eq!(
        parse_env_temp_store_value(unreadable()).unwrap_err().to_string(),
        "failed to read SQLITE_TEMP_STORE: not unicode"
    );
}

#[test]
fn temp_store_keywords_ignore_case_and_white_space() {
    let store = |text: &str| parse_env_temp_store_value(Ok(text.to_owned())).unwrap();
    assert_eq!(store(" Default "), SqliteTempStore::Default);
    assert_eq!(store("0"), SqliteTempStore::Default);
    assert_eq!(store("1"), SqliteTempStore::File);
    assert_eq!(store("MEMORY"), SqliteTempStore::Memory);
    assert_eq!(SqliteTempStore::default(), SqliteTempStore::Memory);
}

#[test]
fn clean_values_are_trimmed_and_never_empty() {
    assert_eq!(clean_value(Some("  a b ".to_owned())), Some("a b".to_owned()));
    assert_eq!(clean_value(Some(" \n\t".to_owned())), None);
    assert_eq!(clean_value(None), None);
    let env = raw_env(&[("A", " x "), ("B", "  ")]);
    assert_eq!(environment_value(&env, "A"), Some("x".to_owned()));
    assert_eq!(environment_value(&env, "B"), None);
    assert_eq!(environment_value(&env, "C"), None);
    assert_eq!(parse_usable_nonzero(Some("0".to_owned())), None);
    assert_eq!(parse_usable_nonzero(Some("12".to_owned())), NonZeroUsize::new(12));
}

#[test]
fn comma_separated_lists_drop_blank_entries() {
    assert_eq!(
        parse_comma_separated(" a.example , ,b.example,,  c d "),
        vec!["a.example".to_owned(), "b.example".to_owned(), "c d".to_owned()]
    );
    assert_eq!(parse_comma_separated(""), Vec::<String>::new());
    assert_eq!(parse_comma_separated(" , ,"), Vec::<String>::new());
    assert_eq!(parse_comma_separated("\u{e9}t\u{e9}"), vec!["\u{e9}t\u{e9}".to_owned()]);
}

#[test]
fn unset_storage_variables_give_the_defaults() {
    let defaults = database_defaults();
    let (postgres, sqlite) =
        database_configs_from_env(Ok(DatabaseBackend::Sqlite), &raw_env(&[]), &defaults).expect("sqlite");
    assert_eq!(sqlite, defaults.sqlite);
    assert_eq!(postgres, defaults.postgres.config());
    assert_eq!(postgres.idle_timeout, Some(Duration::from_secs(600)));
    let (postgres, _) =
        database_configs_from_env(Ok(DatabaseBackend::Postgres), &raw_env(&[]), &defaults).expect("postgres");
    assert_eq!(postgres, defaults.postgres.config());
}

#[test]
fn storage_variables_of_another_engine_are_not_read() {
    let defaults = database_defaults();
    let env = raw_env(&[("SQLITE_MAX_CONNECTIONS", "bogus"), ("POSTGRES_MAX_CONNECTIONS", "3")]);
    let (postgres, sqlite) =
        database_configs_from_env(Ok(DatabaseBackend::Postgres), &env, &defaults).expect("postgres");
    assert_eq!(postgres.max_connections, 3);
    assert_eq!(sqlite, defaults.sqlite);
    assert!(database_configs_from_env(Ok(DatabaseBackend::Sqlite), &env, &defaults).is_err());
    assert!(database_configs_from_env(Ok(DatabaseBackend::Other), &env, &defaults).is_ok());
}

#[test]
fn every_storage_variable_lands_in_its_field() {
    let defaults = database_defaults();
    let env = raw_env(&[
        ("SQLITE_MAX_CONNECTIONS", "2"),
        ("SQLITE_JOURNAL_SIZE_LIMIT_BYTES", "3"),
        ("SQLITE_TEMP_STORE", "file"),
        ("SQLITE_MMAP_SIZE_BYTES", "4"),
        ("POSTGRES_MAX_CONNECTIONS", "5"),
        ("POSTGRES_ACQUIRE_TIMEOUT_SECONDS", "6"),
        ("POSTGRES_LOCK_TIMEOUT_SECONDS", "7"),
        ("POSTGRES_MIGRATION_TIMEOUT_SECONDS", "8"),
        ("POSTGRES_STATEMENT_TIMEOUT_SECONDS", "9"),
        ("POSTGRES_IDLE_TIMEOUT_SECONDS", "0"),
        ("POSTGRES_MAX_LIFETIME_SECONDS", "11"),
    ]);
    assert_eq!(
        sqlite_config_from_env(&env, &defaults.sqlite).expect("sqlite"),
        SqliteConfig {
            max_connections: 2,
            journal_size_limit_bytes: 3,
            temp_store: SqliteTempStore::File,
            mmap_size_bytes: 4,
        }
    );
    let postgres = postgres_config_from_env(&env, &defaults.postgres).expect("postgres");
    assert_eq!(postgres.max_connections, 5);
    assert_eq!(postgres.acquire_timeout, Duration::from_secs(6));
    assert_eq!(postgres.lock_timeout, Duration::from_secs(7));
    assert_eq!(postgres.migration_timeout, Duration::from_secs(8));
    assert_eq!(postgres.statement_timeout, Duration::from_secs(9));
    assert_eq!(postgres.idle_timeout, None);
    assert_eq!(postgres.max_lifetime, Some(Duration::from_secs(11)));
}
