//! Storage settings.

use std::time::Duration;

use vstd::prelude::*;

use crate::error;
use crate::error::Error;
use crate::settings::environment;
use crate::settings::environment::{SqliteTempStore, VarError};

verus! {

/// `SQLite` tuning.
#[derive(Debug, Clone, Copy, PartialEq, Eq)]
pub struct SqliteConfig {
    pub max_connections: u32,
    pub journal_size_limit_bytes: u64,
    pub temp_store: SqliteTempStore,
    pub mmap_size_bytes: u64,
}

/// `PostgreSQL` pool settings.
#[derive(Debug, Clone, Copy, PartialEq, Eq)]
pub struct PostgresConfig {
    pub max_connections: u32,
    pub acquire_timeout: Duration,
    pub lock_timeout: Duration,
    pub migration_timeout: Duration,
    pub statement_timeout: Duration,
    pub idle_timeout: Option<Duration>,
    pub max_lifetime: Option<Duration>,
}

/// What the `PostgreSQL` settings are where no variable says otherwise.
#[derive(Debug, Clone, Copy, PartialEq, Eq)]
pub struct PostgresDefaults {
    pub max_connections: u32,
    pub acquire_timeout_seconds: u64,
    pub lock_timeout_seconds: u64,
    pub migration_timeout_seconds: u64,
    pub statement_timeout_seconds: u64,
    pub idle_timeout_seconds: u64,
    pub max_lifetime_seconds: u64,
}

/// What the storage settings are where no variable says otherwise.
#[derive(Debug, Clone, Copy, PartialEq, Eq)]
pub struct DatabaseDefaults {
    pub sqlite: SqliteConfig,
    pub postgres: PostgresDefaults,
}

/// The storage engine that a database URL selects.
#[derive(Debug, Clone, Copy, PartialEq, Eq, Structural)]
pub enum DatabaseBackend {
    Postgres,
    Sqlite,
    Other,
}

// ---------------------------------------------------------------------------
// Models
// ---------------------------------------------------------------------------

/// Zero switches a timeout off.
pub open spec fn optional_seconds(seconds: u64) -> Option<Duration> {
    if seconds > 0 {
        Some(environment::duration_of_secs(seconds))
    } else {
        None
    }
}

/// The `PostgreSQL` settings without any variable.
pub open spec fn default_postgres(defaults: PostgresDefaults) -> PostgresConfig {
    PostgresConfig {
        max_connections: defaults.max_connections,
        acquire_timeout: environment::duration_of_secs(defaults.acquire_timeout_seconds),
        lock_timeout: environment::duration_of_secs(defaults.lock_timeout_seconds),
        migration_timeout: environment::duration_of_secs(defaults.migration_timeout_seconds),
        statement_timeout: environment::duration_of_secs(defaults.statement_timeout_seconds),
        idle_timeout: optional_seconds(defaults.idle_timeout_seconds),
        max_lifetime: optional_seconds(defaults.max_lifetime_seconds),
    }
}

/// The `SQLite` settings that an environment gives: the first invalid variable, in
/// the order of the fields, refuses them all.
pub open spec fn sqlite_settings(model: environment::RawEnvironment, defaults: SqliteConfig) -> Result<SqliteConfig, Seq<char>> {
    match environment::u32_setting(
        "SQLITE_MAX_CONNECTIONS"@,
        model("SQLITE_MAX_CONNECTIONS"@),
        defaults.max_connections,
    ) {
        Err(why) => Err(why),
        Ok(max_connections) => match environment::u64_setting(
            "SQLITE_JOURNAL_SIZE_LIMIT_BYTES"@,
            model("SQLITE_JOURNAL_SIZE_LIMIT_BYTES"@),
            defaults.journal_size_limit_bytes,
        ) {
            Err(why) => Err(why),
            Ok(journal_size_limit_bytes) => match environment::temp_store_setting(model("SQLITE_TEMP_STORE"@)) {
                Err(why) => Err(why),
                Ok(temp_store) => match environment::u64_setting(
                    "SQLITE_MMAP_SIZE_BYTES"@,
                    model("SQLITE_MMAP_SIZE_BYTES"@),
                    defaults.mmap_size_bytes,
                ) {
                    Err(why) => Err(why),
                    Ok(mmap_size_bytes) => Ok(
                        SqliteConfig { max_connections, journal_size_limit_bytes, temp_store, mmap_size_bytes },
                    ),
                },
            },
        },
    }
}

/// The `PostgreSQL` settings that an environment gives: the first invalid variable,
/// in the order of the fields, refuses them all.
pub open spec fn postgres_settings(model: environment::RawEnvironment, defaults: PostgresDefaults) -> Result<
    PostgresConfig,
    Seq<char>,
> {
    match environment::u32_setting(
        "POSTGRES_MAX_CONNECTIONS"@,
        model("POSTGRES_MAX_CONNECTIONS"@),
        defaults.max_connections,
    ) {
        Err(why) => Err(why),
        Ok(max_connections) => match environment::duration_setting(
            "POSTGRES_ACQUIRE_TIMEOUT_SECONDS"@,
            model("POSTGRES_ACQUIRE_TIMEOUT_SECONDS"@),
            defaults.acquire_timeout_seconds,
        ) {
            Err(why) => Err(why),
            Ok(acquire_timeout) => match environment::duration_setting(
                "POSTGRES_LOCK_TIMEOUT_SECONDS"@,
                model("POSTGRES_LOCK_TIMEOUT_SECONDS"@),
                defaults.lock_timeout_seconds,
            ) {
                Err(why) => Err(why),
                Ok(lock_timeout) => match environment::duration_setting(
                    "POSTGRES_MIGRATION_TIMEOUT_SECONDS"@,
                    model("POSTGRES_MIGRATION_TIMEOUT_SECONDS"@),
                    defaults.migration_timeout_seconds,
                ) {
                    Err(why) => Err(why),
                    Ok(migration_timeout) => match environment::duration_setting(
                        "POSTGRES_STATEMENT_TIMEOUT_SECONDS"@,
                        model("POSTGRES_STATEMENT_TIMEOUT_SECONDS"@),
                        defaults.statement_timeout_seconds,
                    ) {
                        Err(why) => Err(why),
                        Ok(statement_timeout) => match environment::optional_duration_setting(
                            "POSTGRES_IDLE_TIMEOUT_SECONDS"@,
                            model("POSTGRES_IDLE_TIMEOUT_SECONDS"@),
                            defaults.idle_timeout_seconds,
                        ) {
                            Err(why) => Err(why),
                            Ok(idle_timeout) => match environment::optional_duration_setting(
                                "POSTGRES_MAX_LIFETIME_SECONDS"@,
                                model("POSTGRES_MAX_LIFETIME_SECONDS"@),
                                defaults.max_lifetime_seconds,
                            ) {
                                Err(why) => Err(why),
                                Ok(max_lifetime) => Ok(
                                    PostgresConfig {
                                        max_connections,
                                        acquire_timeout,
                                        lock_timeout,
                                        migration_timeout,
                                        statement_timeout,
                                        idle_timeout,
                                        max_lifetime,
                                    },
                                ),
                            },
                        },
                    },
                },
            },
        },
    }
}

/// The storage settings for a backend: only the variables of the selected engine are
/// looked at, and the other engine keeps its defaults.
pub open spec fn database_settings(
    backend: Result<DatabaseBackend, Seq<char>>,
    model: environment::RawEnvironment,
    defaults: DatabaseDefaults,
) -> Result<(PostgresConfig, SqliteConfig), Seq<char>> {
    match backend {
        Err(why) => Err("invalid DATABASE_URL: "@ + why),
        Ok(DatabaseBackend::Postgres) => match postgres_settings(model, defaults.postgres) {
            Err(why) => Err(why),
            Ok(postgres) => Ok((postgres, defaults.sqlite)),
        },
        Ok(DatabaseBackend::Sqlite) => match sqlite_settings(model, defaults.sqlite) {
            Err(why) => Err(why),
            Ok(sqlite) => Ok((default_postgres(defaults.postgres), sqlite)),
        },
        Ok(DatabaseBackend::Other) => Ok((default_postgres(defaults.postgres), defaults.sqlite)),
    }
}

// ---------------------------------------------------------------------------
// Reading
// ---------------------------------------------------------------------------

fn optional_duration(seconds: u64) -> (duration: Option<Duration>)
    ensures
        duration == optional_seconds(seconds),
{
    if seconds > 0 {
        Some(Duration::from_secs(seconds))
    } else {
        None
    }
}

impl PostgresDefaults {
    /// The settings without any variable.
    pub fn config(&self) -> (config: PostgresConfig)
        ensures
            config == default_postgres(*self),
    {
        PostgresConfig {
            max_connections: self.max_connections,
            acquire_timeout: Duration::from_secs(self.acquire_timeout_seconds),
            lock_timeout: Duration::from_secs(self.lock_timeout_seconds),
            migration_timeout: Duration::from_secs(self.migration_timeout_seconds),
            statement_timeout: Duration::from_secs(self.statement_timeout_seconds),
            idle_timeout: optional_duration(self.idle_timeout_seconds),
            max_lifetime: optional_duration(self.max_lifetime_seconds),
        }
    }
}

/// The `SQLite` settings.
///
/// # Errors
/// Names the first variable that cannot be read or used.
pub fn sqlite_config_from_env<E>(env: &E, defaults: &SqliteConfig) -> (r: Result<SqliteConfig, Error>) where
    E: Fn(&str) -> Result<String, VarError>,

    requires
        forall|name: &str| call_requires(*env, (name,)),
    ensures
        forall|model: environment::RawEnvironment| #[trigger]
            environment::reads(*env, model) ==> error::outcome(r) == sqlite_settings(model, *defaults),
{
    Ok(
        SqliteConfig {
            max_connections: environment::parse_env_u32_value(
                "SQLITE_MAX_CONNECTIONS",
                env("SQLITE_MAX_CONNECTIONS"),
                defaults.max_connections,
            )?,
            journal_size_limit_bytes: environment::parse_env_u64_value(
                "SQLITE_JOURNAL_SIZE_LIMIT_BYTES",
                env("SQLITE_JOURNAL_SIZE_LIMIT_BYTES"),
                defaults.journal_size_limit_bytes,
            )?,
            temp_store: environment::parse_env_temp_store_value(env("SQLITE_TEMP_STORE"))?,
            mmap_size_bytes: environment::parse_env_u64_value(
                "SQLITE_MMAP_SIZE_BYTES",
                env("SQLITE_MMAP_SIZE_BYTES"),
                defaults.mmap_size_bytes,
            )?,
        },
    )
}

/// The `PostgreSQL` settings.
///
/// # Errors
/// Names the first variable that cannot be read or used.
pub fn postgres_config_from_env<E>(env: &E, defaults: &PostgresDefaults) -> (r: Result<PostgresConfig, Error>) where
    E: Fn(&str) -> Result<String, VarError>,

    requires
        forall|name: &str| call_requires(*env, (name,)),
    ensures
        forall|model: environment::RawEnvironment| #[trigger]
            environment::reads(*env, model) ==> error::outcome(r) == postgres_settings(model, *defaults),
{
    Ok(
        PostgresConfig {
            max_connections: environment::parse_env_u32_value(
                "POSTGRES_MAX_CONNECTIONS",
                env("POSTGRES_MAX_CONNECTIONS"),
                defaults.max_connections,
            )?,
            acquire_timeout: environment::parse_env_duration_value(
                "POSTGRES_ACQUIRE_TIMEOUT_SECONDS",
                env("POSTGRES_ACQUIRE_TIMEOUT_SECONDS"),
                defaults.acquire_timeout_seconds,
            )?,
            lock_timeout: environment::parse_env_duration_value(
                "POSTGRES_LOCK_TIMEOUT_SECONDS",
                env("POSTGRES_LOCK_TIMEOUT_SECONDS"),
                defaults.lock_timeout_seconds,
            )?,
            migration_timeout: environment::parse_env_duration_value(
                "POSTGRES_MIGRATION_TIMEOUT_SECONDS",
                env("POSTGRES_MIGRATION_TIMEOUT_SECONDS"),
                defaults.migration_timeout_seconds,
            )?,
            statement_timeout: environment::parse_env_duration_value(
                "POSTGRES_STATEMENT_TIMEOUT_SECONDS",
                env("POSTGRES_STATEMENT_TIMEOUT_SECONDS"),
                defaults.statement_timeout_seconds,
            )?,
            idle_timeout: environment::parse_env_optional_duration_value(
                "POSTGRES_IDLE_TIMEOUT_SECONDS",
                env("POSTGRES_IDLE_TIMEOUT_SECONDS"),
                defaults.idle_timeout_seconds,
            )?,
            max_lifetime: environment::parse_env_optional_duration_value(
                "POSTGRES_MAX_LIFETIME_SECONDS",
                env("POSTGRES_MAX_LIFETIME_SECONDS"),
                defaults.max_lifetime_seconds,
            )?,
        },
    )
}

/// The storage settings for the backend that the database URL was found to select.
///
/// # Errors
/// Names the URL where it selects no backend, and else the first variable of the
/// selected engine that cannot be read or used.
pub fn database_configs_from_env<E>(
    backend: Result<DatabaseBackend, String>,
    env: &E,
    defaults: &DatabaseDefaults,
) -> (r: Result<(PostgresConfig, SqliteConfig), Error>) where E: Fn(&str) -> Result<String, VarError>,
    requires
        forall|name: &str| call_requires(*env, (name,)),
    ensures
        forall|model: environment::RawEnvironment| #[trigger]
            environment::reads(*env, model) ==> error::outcome(r) == database_settings(
                crate::text::parsed(backend),
                model,
                *defaults,
            ),
        backend matches Err(why) ==> (r matches Err(error) && error@ == "invalid DATABASE_URL: "@ + why@),
        backend == Ok::<DatabaseBackend, String>(DatabaseBackend::Other) ==> r == Ok::<_, Error>(
            (default_postgres(defaults.postgres), defaults.sqlite),
        ),
{
    match backend {
        Err(why) => Err(Error::Config("invalid DATABASE_URL: ".to_owned().concat(why.as_str()))),
        Ok(DatabaseBackend::Postgres) => Ok((postgres_config_from_env(env, &defaults.postgres)?, defaults.sqlite)),
        Ok(DatabaseBackend::Sqlite) => Ok((defaults.postgres.config(), sqlite_config_from_env(env, &defaults.sqlite)?)),
        Ok(DatabaseBackend::Other) => Ok((defaults.postgres.config(), defaults.sqlite)),
    }
}

/// With no variable set, each engine has its defaults, as long as the timeouts that
/// cannot be switched off are not zero.
pub proof fn law_unset_environment_gives_defaults(
    backend: DatabaseBackend,
    model: environment::RawEnvironment,
    defaults: DatabaseDefaults,
)
    requires
        forall|name: Seq<char>| #[trigger] model(name) == environment::RawVar::Missing,
        defaults.postgres.acquire_timeout_seconds > 0,
        defaults.postgres.lock_timeout_seconds > 0,
        defaults.postgres.migration_timeout_seconds > 0,
        defaults.postgres.statement_timeout_seconds > 0,
    ensures
        database_settings(Ok(backend), model, defaults) == Ok::<(PostgresConfig, SqliteConfig), Seq<char>>(
            (
                default_postgres(defaults.postgres),
                match backend {
                    DatabaseBackend::Sqlite => SqliteConfig { temp_store: SqliteTempStore::Memory, ..defaults.sqlite },
                    _ => defaults.sqlite,
                },
            ),
        ),
{
}

/// The variables that tune `SQLite`.
pub open spec fn tunes_sqlite(name: Seq<char>) -> bool {
    ||| name == "SQLITE_MAX_CONNECTIONS"@
    ||| name == "SQLITE_JOURNAL_SIZE_LIMIT_BYTES"@
    ||| name == "SQLITE_TEMP_STORE"@
    ||| name == "SQLITE_MMAP_SIZE_BYTES"@
}

/// The variables that set up `PostgreSQL`.
pub open spec fn tunes_postgres(name: Seq<char>) -> bool {
    ||| name == "POSTGRES_MAX_CONNECTIONS"@
    ||| name == "POSTGRES_ACQUIRE_TIMEOUT_SECONDS"@
    ||| name == "POSTGRES_LOCK_TIMEOUT_SECONDS"@
    ||| name == "POSTGRES_MIGRATION_TIMEOUT_SECONDS"@
    ||| name == "POSTGRES_STATEMENT_TIMEOUT_SECONDS"@
    ||| name == "POSTGRES_IDLE_TIMEOUT_SECONDS"@
    ||| name == "POSTGRES_MAX_LIFETIME_SECONDS"@
}

/// Only the selected engine's own variables matter: environments that agree on them
/// give the same settings, whatever else they hold.
pub proof fn law_only_the_selected_engine_reads_its_variables(
    backend: DatabaseBackend,
    one: environment::RawEnvironment,
    other: environment::RawEnvironment,
    defaults: DatabaseDefaults,
)
    requires
        forall|name: Seq<char>|
            (backend is Sqlite && tunes_sqlite(name)) || (backend is Postgres && tunes_postgres(name))
                ==> #[trigger] one(name) == other(name),
    ensures
        database_settings(Ok(backend), one, defaults) == database_settings(Ok(backend), other, defaults),
{
}

/// A timeout that cannot be switched off is the positive number of seconds that its own
/// variable gives.
pub open spec fn is_timeout_read(value: environment::RawVar, default: u64, timeout: Duration) -> bool {
    environment::number_read(value, default as nat, 0, u64::MAX as nat) matches Some(seconds) && (seconds > 0 && timeout
        == environment::duration_of_secs(seconds as u64))
}

/// A timeout that zero switches off is the number of seconds that its own variable
/// gives.
pub open spec fn is_optional_timeout_read(value: environment::RawVar, default: u64, timeout: Option<Duration>) -> bool {
    environment::number_read(value, default as nat, 0, u64::MAX as nat) matches Some(seconds) && match timeout {
        Some(duration) => seconds > 0 && duration == environment::duration_of_secs(seconds as u64),
        None => seconds == 0,
    }
}

/// Every `PostgreSQL` setting is what its own variable gives, and no variable has a say
/// in the setting of another.
pub open spec fn is_postgres_read(model: environment::RawEnvironment, defaults: PostgresDefaults, config: PostgresConfig) -> bool {
    &&& environment::number_read(
        model("POSTGRES_MAX_CONNECTIONS"@),
        defaults.max_connections as nat,
        1,
        u32::MAX as nat,
    ) == Some(config.max_connections as nat)
    &&& is_timeout_read(
        model("POSTGRES_ACQUIRE_TIMEOUT_SECONDS"@),
        defaults.acquire_timeout_seconds,
        config.acquire_timeout,
    )
    &&& is_timeout_read(model("POSTGRES_LOCK_TIMEOUT_SECONDS"@), defaults.lock_timeout_seconds, config.lock_timeout)
    &&& is_timeout_read(
        model("POSTGRES_MIGRATION_TIMEOUT_SECONDS"@),
        defaults.migration_timeout_seconds,
        config.migration_timeout,
    )
    &&& is_timeout_read(
        model("POSTGRES_STATEMENT_TIMEOUT_SECONDS"@),
        defaults.statement_timeout_seconds,
        config.statement_timeout,
    )
    &&& is_optional_timeout_read(
        model("POSTGRES_IDLE_TIMEOUT_SECONDS"@),
        defaults.idle_timeout_seconds,
        config.idle_timeout,
    )
    &&& is_optional_timeout_read(
        model("POSTGRES_MAX_LIFETIME_SECONDS"@),
        defaults.max_lifetime_seconds,
        config.max_lifetime,
    )
}

/// Every `SQLite` setting is what its own variable gives.
pub open spec fn is_sqlite_read(model: environment::RawEnvironment, defaults: SqliteConfig, config: SqliteConfig) -> bool {
    &&& environment::number_read(
        model("SQLITE_MAX_CONNECTIONS"@),
        defaults.max_connections as nat,
        1,
        u32::MAX as nat,
    ) == Some(config.max_connections as nat)
    &&& environment::number_read(
        model("SQLITE_JOURNAL_SIZE_LIMIT_BYTES"@),
        defaults.journal_size_limit_bytes as nat,
        0,
        u64::MAX as nat,
    ) == Some(config.journal_size_limit_bytes as nat)
    &&& environment::temp_store_setting(model("SQLITE_TEMP_STORE"@)) == Ok::<SqliteTempStore, Seq<char>>(
        config.temp_store,
    )
    &&& environment::number_read(
        model("SQLITE_MMAP_SIZE_BYTES"@),
        defaults.mmap_size_bytes as nat,
        0,
        u64::MAX as nat,
    ) == Some(config.mmap_size_bytes as nat)
}

/// `PostgreSQL` settings that are not touched by any variable: the defaults, with a zero
/// switching off the timeouts that can be.
pub open spec fn is_untouched_postgres(defaults: PostgresDefaults, config: PostgresConfig) -> bool {
    &&& config.max_connections == defaults.max_connections
    &&& config.acquire_timeout == environment::duration_of_secs(defaults.acquire_timeout_seconds)
    &&& config.lock_timeout == environment::duration_of_secs(defaults.lock_timeout_seconds)
    &&& config.migration_timeout == environment::duration_of_secs(defaults.migration_timeout_seconds)
    &&& config.statement_timeout == environment::duration_of_secs(defaults.statement_timeout_seconds)
    &&& match config.idle_timeout {
        Some(timeout) => defaults.idle_timeout_seconds > 0 && timeout == environment::duration_of_secs(
            defaults.idle_timeout_seconds,
        ),
        None => defaults.idle_timeout_seconds == 0,
    }
    &&& match config.max_lifetime {
        Some(timeout) => defaults.max_lifetime_seconds > 0 && timeout == environment::duration_of_secs(
            defaults.max_lifetime_seconds,
        ),
        None => defaults.max_lifetime_seconds == 0,
    }
}

/// Accepted `PostgreSQL` settings are each what their own variable gives, and settings
/// are accepted exactly where every variable gives one.
pub proof fn law_postgres_settings_follow_their_variables(
    model: environment::RawEnvironment,
    defaults: PostgresDefaults,
)
    ensures
        postgres_settings(model, defaults) matches Ok(config) ==> is_postgres_read(model, defaults, config),
        postgres_settings(model, defaults) is Ok <==> exists|config: PostgresConfig| #[trigger]
            is_postgres_read(model, defaults, config),
{
    if postgres_settings(model, defaults) is Ok {
        assert(is_postgres_read(model, defaults, postgres_settings(model, defaults)->Ok_0));
    }
}

/// Accepted `SQLite` settings are each what their own variable gives, and settings are
/// accepted exactly where every variable gives one.
pub proof fn law_sqlite_settings_follow_their_variables(model: environment::RawEnvironment, defaults: SqliteConfig)
    ensures
        sqlite_settings(model, defaults) matches Ok(config) ==> is_sqlite_read(model, defaults, config),
        sqlite_settings(model, defaults) is Ok <==> exists|config: SqliteConfig| #[trigger]
            is_sqlite_read(model, defaults, config),
{
    if sqlite_settings(model, defaults) is Ok {
        assert(is_sqlite_read(model, defaults, sqlite_settings(model, defaults)->Ok_0));
    }
}

/// A refusal of `SQLite` settings is that of the first variable that cannot be used, in
/// the order connections, journal size, temporary store, mapped size.
pub proof fn law_first_sqlite_refusal_counts(model: environment::RawEnvironment, defaults: SqliteConfig)
    ensures
        ({
            let connections = environment::u32_setting(
                "SQLITE_MAX_CONNECTIONS"@,
                model("SQLITE_MAX_CONNECTIONS"@),
                defaults.max_connections,
            );
            let journal = environment::u64_setting(
                "SQLITE_JOURNAL_SIZE_LIMIT_BYTES"@,
                model("SQLITE_JOURNAL_SIZE_LIMIT_BYTES"@),
                defaults.journal_size_limit_bytes,
            );
            let store = environment::temp_store_setting(model("SQLITE_TEMP_STORE"@));
            let mapped = environment::u64_setting(
                "SQLITE_MMAP_SIZE_BYTES"@,
                model("SQLITE_MMAP_SIZE_BYTES"@),
                defaults.mmap_size_bytes,
            );
            let settings = sqlite_settings(model, defaults);
            &&& connections matches Err(why) ==> settings == Err::<SqliteConfig, Seq<char>>(why)
            &&& connections is Ok ==> (journal matches Err(why) ==> settings == Err::<SqliteConfig, Seq<char>>(why))
            &&& connections is Ok && journal is Ok ==> (store matches Err(why) ==> settings == Err::<
                SqliteConfig,
                Seq<char>,
            >(why))
            &&& connections is Ok && journal is Ok && store is Ok ==> (mapped matches Err(why) ==> settings == Err::<
                SqliteConfig,
                Seq<char>,
            >(why))
        }),
{
}

/// A refusal of `PostgreSQL` settings is that of the first variable that cannot be used,
/// in the order connections, acquisition, lock, migration, statement, idling, lifetime.
pub proof fn law_first_postgres_refusal_counts(model: environment::RawEnvironment, defaults: PostgresDefaults)
    ensures
        ({
            let connections = environment::u32_setting(
                "POSTGRES_MAX_CONNECTIONS"@,
                model("POSTGRES_MAX_CONNECTIONS"@),
                defaults.max_connections,
            );
            let acquisition = environment::duration_setting(
                "POSTGRES_ACQUIRE_TIMEOUT_SECONDS"@,
                model("POSTGRES_ACQUIRE_TIMEOUT_SECONDS"@),
                defaults.acquire_timeout_seconds,
            );
            let lock = environment::duration_setting(
                "POSTGRES_LOCK_TIMEOUT_SECONDS"@,
                model("POSTGRES_LOCK_TIMEOUT_SECONDS"@),
                defaults.lock_timeout_seconds,
            );
            let migration = environment::duration_setting(
                "POSTGRES_MIGRATION_TIMEOUT_SECONDS"@,
                model("POSTGRES_MIGRATION_TIMEOUT_SECONDS"@),
                defaults.migration_timeout_seconds,
            );
            let statement = environment::duration_setting(
                "POSTGRES_STATEMENT_TIMEOUT_SECONDS"@,
                model("POSTGRES_STATEMENT_TIMEOUT_SECONDS"@),
                defaults.statement_timeout_seconds,
            );
            let idling = environment::optional_duration_setting(
                "POSTGRES_IDLE_TIMEOUT_SECONDS"@,
                model("POSTGRES_IDLE_TIMEOUT_SECONDS"@),
                defaults.idle_timeout_seconds,
            );
            let lifetime = environment::optional_duration_setting(
                "POSTGRES_MAX_LIFETIME_SECONDS"@,
                model("POSTGRES_MAX_LIFETIME_SECONDS"@),
                defaults.max_lifetime_seconds,
            );
            let settings = postgres_settings(model, defaults);
            &&& connections matches Err(why) ==> settings == Err::<PostgresConfig, Seq<char>>(why)
            &&& connections is Ok ==> (acquisition matches Err(why) ==> settings == Err::<PostgresConfig, Seq<char>>(why))
            &&& connections is Ok && acquisition is Ok ==> (lock matches Err(why) ==> settings == Err::<
                PostgresConfig,
                Seq<char>,
            >(why))
            &&& connections is Ok && acquisition is Ok && lock is Ok ==> (migration matches Err(why) ==> settings
                == Err::<PostgresConfig, Seq<char>>(why))
            &&& connections is Ok && acquisition is Ok && lock is Ok && migration is Ok ==> (statement matches Err(why)
                ==> settings == Err::<PostgresConfig, Seq<char>>(why))
            &&& connections is Ok && acquisition is Ok && lock is Ok && migration is Ok && statement is Ok ==> (idling
                matches Err(why) ==> settings == Err::<PostgresConfig, Seq<char>>(why))
            &&& connections is Ok && acquisition is Ok && lock is Ok && migration is Ok && statement is Ok && idling
                is Ok ==> (lifetime matches Err(why) ==> settings == Err::<PostgresConfig, Seq<char>>(why))
        }),
{
}

/// The selected engine is set up from its own variables and the other one is left at its
/// defaults; an engine that is neither leaves both, and without an engine there are no
/// settings.
pub proof fn law_storage_settings_follow_the_selected_engine(
    backend: Result<DatabaseBackend, Seq<char>>,
    model: environment::RawEnvironment,
    defaults: DatabaseDefaults,
)
    ensures
        database_settings(backend, model, defaults) matches Ok((postgres, sqlite)) ==> (backend matches Ok(engine)
            && match engine {
            DatabaseBackend::Postgres => is_postgres_read(model, defaults.postgres, postgres) && sqlite
                == defaults.sqlite,
            DatabaseBackend::Sqlite => is_untouched_postgres(defaults.postgres, postgres) && is_sqlite_read(
                model,
                defaults.sqlite,
                sqlite,
            ),
            DatabaseBackend::Other => is_untouched_postgres(defaults.postgres, postgres) && sqlite == defaults.sqlite,
        }),
        backend matches Err(why) ==> database_settings(backend, model, defaults) == Err::<
            (PostgresConfig, SqliteConfig),
            Seq<char>,
        >("invalid DATABASE_URL: "@ + why),
        backend matches Ok(DatabaseBackend::Other) ==> database_settings(backend, model, defaults) is Ok,
        backend matches Ok(DatabaseBackend::Postgres) ==> match postgres_settings(model, defaults.postgres) {
            Ok(_) => database_settings(backend, model, defaults) is Ok,
            Err(why) => database_settings(backend, model, defaults) == Err::<(PostgresConfig, SqliteConfig), Seq<char>>(
                why,
            ),
        },
        backend matches Ok(DatabaseBackend::Sqlite) ==> match sqlite_settings(model, defaults.sqlite) {
            Ok(_) => database_settings(backend, model, defaults) is Ok,
            Err(why) => database_settings(backend, model, defaults) == Err::<(PostgresConfig, SqliteConfig), Seq<char>>(
                why,
            ),
        },
{
    law_postgres_settings_follow_their_variables(model, defaults.postgres);
    law_sqlite_settings_follow_their_variables(model, defaults.sqlite);
}

/// What the readers of storage variables return, whatever function answers for the
/// environment: the settings that the variables of the engine give, and its defaults
/// where none is asked for.
pub proof fn law_read_storage_settings_follow_the_variables<E: Fn(&str) -> Result<String, VarError>>(
    env: E,
    model: environment::RawEnvironment,
    defaults: DatabaseDefaults,
    postgres: Result<PostgresConfig, Error>,
    sqlite: Result<SqliteConfig, Error>,
    untouched: PostgresConfig,
)
    requires
        forall|name: &str, value: Result<String, VarError>| #[trigger]
            call_ensures(env, (name,), value) ==> match value {
                Ok(text) => model(name@) == environment::RawVar::Text(text@),
                Err(VarError::NotPresent) => model(name@) == environment::RawVar::Missing,
                Err(VarError::NotUnicode(why)) => model(name@) == environment::RawVar::Unreadable(why@),
            },
        call_ensures(postgres_config_from_env::<E>, (&env, &defaults.postgres), postgres),
        call_ensures(sqlite_config_from_env::<E>, (&env, &defaults.sqlite), sqlite),
        call_ensures(PostgresDefaults::config, (&defaults.postgres,), untouched),
    ensures
        postgres matches Ok(config) ==> is_postgres_read(model, defaults.postgres, config),
        sqlite matches Ok(config) ==> is_sqlite_read(model, defaults.sqlite, config),
        postgres is Ok <==> exists|config: PostgresConfig| #[trigger]
            is_postgres_read(model, defaults.postgres, config),
        sqlite is Ok <==> exists|config: SqliteConfig| #[trigger] is_sqlite_read(model, defaults.sqlite, config),
        is_untouched_postgres(defaults.postgres, untouched),
{
    assert(environment::reads(env, model));
    assert(seq![(&env, &defaults.postgres)][0].0 == &env);
    assert(seq![(&env, &defaults.sqlite)][0].0 == &env);
    law_postgres_settings_follow_their_variables(model, defaults.postgres);
    law_sqlite_settings_follow_their_variables(model, defaults.sqlite);
}

/// What is returned for an engine: that engine's settings from its own variables with the
/// other's defaults, or the first refusal.
pub proof fn law_returned_storage_settings_follow_the_selected_engine<E: Fn(&str) -> Result<String, VarError>>(
    backend: Result<DatabaseBackend, String>,
    env: E,
    model: environment::RawEnvironment,
    defaults: DatabaseDefaults,
    r: Result<(PostgresConfig, SqliteConfig), Error>,
)
    requires
        forall|name: &str, value: Result<String, VarError>| #[trigger]
            call_ensures(env, (name,), value) ==> match value {
                Ok(text) => model(name@) == environment::RawVar::Text(text@),
                Err(VarError::NotPresent) => model(name@) == environment::RawVar::Missing,
                Err(VarError::NotUnicode(why)) => model(name@) == environment::RawVar::Unreadable(why@),
            },
        call_ensures(database_configs_from_env::<E>, (backend, &env, &defaults), r),
    ensures
        match backend {
            Err(why) => r matches Err(error) && error@ == "invalid DATABASE_URL: "@ + why@,
            Ok(DatabaseBackend::Postgres) => match r {
                Ok((postgres, sqlite)) => is_postgres_read(model, defaults.postgres, postgres) && sqlite
                    == defaults.sqlite,
                Err(error) => postgres_settings(model, defaults.postgres) == Err::<PostgresConfig, Seq<char>>(error@),
            },
            Ok(DatabaseBackend::Sqlite) => match r {
                Ok((postgres, sqlite)) => is_untouched_postgres(defaults.postgres, postgres) && is_sqlite_read(
                    model,
                    defaults.sqlite,
                    sqlite,
                ),
                Err(error) => sqlite_settings(model, defaults.sqlite) == Err::<SqliteConfig, Seq<char>>(error@),
            },
            Ok(DatabaseBackend::Other) => r matches Ok((postgres, sqlite)) && (is_untouched_postgres(
                defaults.postgres,
                postgres,
            ) && sqlite == defaults.sqlite),
        },
{
    assert(environment::reads(env, model));
    let args = seq![(backend, &env, &defaults)][0];
    assert(args.1 == &env);
    assert(error::outcome(r) == database_settings(crate::text::parsed(backend), model, defaults));
    law_storage_settings_follow_the_selected_engine(crate::text::parsed(backend), model, defaults);
}

} // verus!
