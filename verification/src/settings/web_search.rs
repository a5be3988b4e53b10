//! Which search backend answers `web_search` calls, and how it is reached.

use vstd::prelude::*;

use crate::error;
use crate::error::Error;
use crate::settings::environment;
use crate::settings::environment::NonZeroUsize;
use crate::text;

verus! {

/// Environment override for the `web_search` backend (`you` or `brave`).
pub const WEB_SEARCH_PROVIDER_ENV: &'static str = "AGENTIC_WEB_SEARCH_PROVIDER";

/// Provider-neutral environment override for the `web_search` endpoint.
pub const WEB_SEARCH_BASE_URL_ENV: &'static str = "AGENTIC_WEB_SEARCH_BASE_URL";

/// Legacy You.com endpoint override, honored only when You.com is selected.
pub const YOU_API_BASE_URL_ENV: &'static str = "YOU_API_BASE_URL";

/// Environment override for the concurrent-query ceiling of one batched search.
pub const WEB_SEARCH_MAX_CONCURRENT_QUERIES_ENV: &'static str = "AGENTIC_WEB_SEARCH_MAX_CONCURRENT_QUERIES";

/// A search backend.
#[derive(Debug, Clone, Copy, PartialEq, Eq, Structural)]
pub enum WebSearchProviderKind {
    You,
    Brave,
}

/// The `[web_search]` part of a configuration file.
#[derive(Debug, PartialEq, Eq)]
pub struct WebSearchFileConfig {
    pub provider: Option<WebSearchProviderKind>,
    pub base_url: Option<String>,
    /// The variable that holds the API key.
    pub api_key_env: Option<String>,
    pub max_concurrent_queries: Option<NonZeroUsize>,
}

/// The settings that the search tool runs with.
#[derive(Debug, PartialEq, Eq)]
pub struct WebSearchProviderConfig {
    pub provider: WebSearchProviderKind,
    pub api_key: Option<String>,
    pub base_url: Option<String>,
    /// Left unset, the provider's own ceiling applies.
    pub max_concurrent_queries: Option<NonZeroUsize>,
}

// ---------------------------------------------------------------------------
// Models
// ---------------------------------------------------------------------------

/// The file part as a value.
pub struct FileValues {
    pub provider: Option<WebSearchProviderKind>,
    pub base_url: Option<Seq<char>>,
    pub api_key_env: Option<Seq<char>>,
    pub max_concurrent_queries: Option<usize>,
}

/// The settings as a value.
pub struct ProviderValues {
    pub provider: WebSearchProviderKind,
    pub api_key: Option<Seq<char>>,
    pub base_url: Option<Seq<char>>,
    pub max_concurrent_queries: Option<usize>,
}

impl View for WebSearchFileConfig {
    type V = FileValues;

    open spec fn view(&self) -> FileValues {
        FileValues {
            provider: self.provider,
            base_url: text::opt_text(self.base_url),
            api_key_env: text::opt_text(self.api_key_env),
            max_concurrent_queries: environment::opt_number(self.max_concurrent_queries),
        }
    }
}

impl View for WebSearchProviderConfig {
    type V = ProviderValues;

    open spec fn view(&self) -> ProviderValues {
        ProviderValues {
            provider: self.provider,
            api_key: text::opt_text(self.api_key),
            base_url: text::opt_text(self.base_url),
            max_concurrent_queries: environment::opt_number(self.max_concurrent_queries),
        }
    }
}

/// A file part that says nothing.
pub open spec fn empty_file() -> FileValues {
    FileValues { provider: None, base_url: None, api_key_env: None, max_concurrent_queries: None }
}

/// The backend that a keyword names.
pub open spec fn provider_keyword(name: Seq<char>) -> Option<WebSearchProviderKind> {
    if text::keyword(name) == "you"@ {
        Some(WebSearchProviderKind::You)
    } else if text::keyword(name) == "brave"@ {
        Some(WebSearchProviderKind::Brave)
    } else {
        None
    }
}

/// What is said of a name that is no backend's.
pub open spec fn unknown_provider(name: Seq<char>) -> Seq<char> {
    "unknown web_search provider \""@ + name + "\"; expected one of: you, brave"@
}

/// The variable that conventionally holds a backend's API key.
pub open spec fn conventional_key_variable(provider: WebSearchProviderKind) -> Seq<char> {
    match provider {
        WebSearchProviderKind::You => "YOU_API_KEY"@,
        WebSearchProviderKind::Brave => "BRAVE_API_KEY"@,
    }
}

/// The endpoint that a backend has of its own.
pub open spec fn own_endpoint(provider: WebSearchProviderKind) -> Option<Seq<char>> {
    match provider {
        WebSearchProviderKind::You => None,
        WebSearchProviderKind::Brave => Some("https://api.search.brave.com"@),
    }
}

/// The selected backend: the environment, the file, You.com.
pub open spec fn selected_provider(
    file: Option<WebSearchProviderKind>,
    value: Option<Seq<char>>,
) -> Result<WebSearchProviderKind, Seq<char>> {
    match value {
        Some(name) => match provider_keyword(name) {
            Some(provider) => Ok(provider),
            None => Err(WEB_SEARCH_PROVIDER_ENV@ + ": "@ + unknown_provider(name)),
        },
        None => Ok(
            match file {
                Some(provider) => provider,
                None => WebSearchProviderKind::You,
            },
        ),
    }
}

/// The variable that the API key is read from: the one that the file names, and else
/// the backend's conventional one.
pub open spec fn key_variable(file: Option<Seq<char>>, provider: WebSearchProviderKind) -> Seq<char> {
    match text::cleaned(file) {
        Some(name) => name,
        None => conventional_key_variable(provider),
    }
}

/// The endpoint that the environment gives. The legacy variable counts for You.com
/// alone.
pub open spec fn environment_endpoint(
    env: environment::Environment,
    provider: WebSearchProviderKind,
) -> Option<Seq<char>> {
    text::first_of(
        env(WEB_SEARCH_BASE_URL_ENV@),
        if provider is You {
            env(YOU_API_BASE_URL_ENV@)
        } else {
            None
        },
    )
}

/// The concurrent-query ceiling: the environment, the file.
pub open spec fn query_ceiling(file: Option<usize>, value: Option<Seq<char>>) -> Result<Option<usize>, Seq<char>> {
    match value {
        Some(text) => match environment::checked_nonzero(
            WEB_SEARCH_MAX_CONCURRENT_QUERIES_ENV@,
            text::nonzero_usize_parse(text),
        ) {
            Ok(number) => Ok(Some(number)),
            Err(why) => Err(why),
        },
        None => Ok(file),
    }
}

/// The search settings that a file and an environment give.
pub open spec fn web_search_settings(file: FileValues, env: environment::Environment) -> Result<
    ProviderValues,
    Seq<char>,
> {
    match selected_provider(file.provider, env(WEB_SEARCH_PROVIDER_ENV@)) {
        Err(why) => Err(why),
        Ok(provider) => match query_ceiling(
            file.max_concurrent_queries,
            env(WEB_SEARCH_MAX_CONCURRENT_QUERIES_ENV@),
        ) {
            Err(why) => Err(why),
            Ok(max_concurrent_queries) => Ok(
                ProviderValues {
                    provider,
                    api_key: env(key_variable(file.api_key_env, provider)),
                    base_url: text::first_of(
                        environment_endpoint(env, provider),
                        text::first_of(file.base_url, own_endpoint(provider)),
                    ),
                    max_concurrent_queries,
                },
            ),
        },
    }
}

/// The backend that an environment names, You.com where it names none.
pub open spec fn named_provider(value: Option<Seq<char>>) -> WebSearchProviderKind {
    match value {
        Some(name) => match provider_keyword(name) {
            Some(provider) => provider,
            None => WebSearchProviderKind::You,
        },
        None => WebSearchProviderKind::You,
    }
}

/// The file part that a generated configuration file gets in an environment.
pub open spec fn generated_web_search_values(env: environment::Environment) -> FileValues {
    let provider = named_provider(env(WEB_SEARCH_PROVIDER_ENV@));
    FileValues {
        provider: Some(provider),
        base_url: environment_endpoint(env, provider),
        api_key_env: Some(conventional_key_variable(provider)),
        max_concurrent_queries: environment::usable_number(env(WEB_SEARCH_MAX_CONCURRENT_QUERIES_ENV@)),
    }
}

/// A result with its settings and its error as values.
pub open spec fn provider_outcome(r: Result<WebSearchProviderConfig, Error>) -> Result<ProviderValues, Seq<char>> {
    match r {
        Ok(config) => Ok(config@),
        Err(error) => Err(error@),
    }
}

// ---------------------------------------------------------------------------
// Backends
// ---------------------------------------------------------------------------

impl Default for WebSearchProviderKind {
    fn default() -> (provider: Self)
        ensures
            provider == WebSearchProviderKind::You,
    {
        WebSearchProviderKind::You
    }
}

impl WebSearchProviderKind {
    /// The backend that `name` names.
    ///
    /// # Errors
    /// Says which names there are where `name` is none of them.
    pub fn parse(name: &str) -> (r: Result<Self, String>)
        ensures
            text::parsed(r) == match provider_keyword(name@) {
                Some(provider) => Ok(provider),
                None => Err(unknown_provider(name@)),
            },
    {
        if text::is_keyword(name, "you") {
            Ok(WebSearchProviderKind::You)
        } else if text::is_keyword(name, "brave") {
            Ok(WebSearchProviderKind::Brave)
        } else {
            Err(
                "unknown web_search provider \"".to_owned().concat(name).concat(
                    "\"; expected one of: you, brave",
                ),
            )
        }
    }

    /// The variable that conventionally holds the backend's API key.
    pub fn default_api_key_env(self) -> (name: &'static str)
        ensures
            name@ == conventional_key_variable(self),
    {
        match self {
            WebSearchProviderKind::You => "YOU_API_KEY",
            WebSearchProviderKind::Brave => "BRAVE_API_KEY",
        }
    }

    /// The endpoint that the backend has of its own.
    pub fn default_base_url(self) -> (url: Option<&'static str>)
        ensures
            text::opt_str(url) == own_endpoint(self),
    {
        match self {
            WebSearchProviderKind::You => None,
            WebSearchProviderKind::Brave => Some("https://api.search.brave.com"),
        }
    }

    /// Whether the backend is You.com.
    pub fn is_you(self) -> (r: bool)
        ensures
            r == (self is You),
    {
        match self {
            WebSearchProviderKind::You => true,
            WebSearchProviderKind::Brave => false,
        }
    }
}

impl Default for WebSearchFileConfig {
    fn default() -> (file: Self)
        ensures
            file@ == empty_file(),
    {
        WebSearchFileConfig { provider: None, base_url: None, api_key_env: None, max_concurrent_queries: None }
    }
}

impl WebSearchProviderConfig {
    /// Settings for You.com with a key and an endpoint.
    pub fn new(api_key: Option<String>, base_url: Option<String>) -> (config: Self)
        ensures
            config == (WebSearchProviderConfig {
                provider: WebSearchProviderKind::You,
                api_key,
                base_url,
                max_concurrent_queries: None,
            }),
    {
        WebSearchProviderConfig {
            provider: WebSearchProviderKind::You,
            api_key,
            base_url,
            max_concurrent_queries: None,
        }
    }

    /// The same settings for another backend.
    pub fn with_provider(self, provider: WebSearchProviderKind) -> (config: Self)
        ensures
            config == (WebSearchProviderConfig { provider, ..self }),
    {
        WebSearchProviderConfig { provider, ..self }
    }

    /// The same settings with another concurrent-query ceiling.
    pub fn with_max_concurrent_queries(self, max_concurrent_queries: Option<NonZeroUsize>) -> (config: Self)
        ensures
            config == (WebSearchProviderConfig { max_concurrent_queries, ..self }),
    {
        WebSearchProviderConfig { max_concurrent_queries, ..self }
    }
}

// ---------------------------------------------------------------------------
// Resolution
// ---------------------------------------------------------------------------

/// The first endpoint of the four, where there is one.
fn first_endpoint(
    generic: Option<String>,
    legacy: Option<String>,
    file: &Option<String>,
    own: Option<&str>,
) -> (url: Option<String>)
    ensures
        text::opt_text(url) == text::first_of(
            text::first_of(text::opt_text(generic), text::opt_text(legacy)),
            text::first_of(text::opt_text(*file), text::opt_str(own)),
        ),
{
    match generic {
        Some(url) => Some(url),
        None => match legacy {
            Some(url) => Some(url),
            None => match file {
                Some(url) => Some(url.clone()),
                None => match own {
                    Some(url) => Some(url.to_owned()),
                    None => None,
                },
            },
        },
    }
}

/// Resolves the `web_search` provider settings: environment variable, configuration
/// file, provider default, in that order.
///
/// The provider comes from `AGENTIC_WEB_SEARCH_PROVIDER` or `[web_search]
/// provider`. The API key is read from the variable named by `api_key_env`,
/// else the provider's conventional variable. The endpoint prefers
/// `AGENTIC_WEB_SEARCH_BASE_URL`, then `YOU_API_BASE_URL` (You.com only), then
/// the file, then the provider default. `max_concurrent_queries` is left unset
/// so the provider's own default applies.
///
/// # Errors
/// Names the provider variable where it names no backend, and else the ceiling variable
/// where it holds no positive integer.
pub fn resolve_web_search_config<F>(file: &WebSearchFileConfig, env: F) -> (r: Result<
    WebSearchProviderConfig,
    Error,
>) where F: Fn(&str) -> Option<String>
    requires
        forall|name: &str| call_requires(env, (name,)),
    ensures
        forall|model: environment::Environment| #[trigger]
            environment::answers(env, model) ==> provider_outcome(r) == web_search_settings(file@, model),
{
    let provider: WebSearchProviderKind = match env(WEB_SEARCH_PROVIDER_ENV) {
        Some(value) => match WebSearchProviderKind::parse(value.as_str()) {
            Ok(provider) => provider,
            Err(why) => {
                let error: Error = error::config_error(WEB_SEARCH_PROVIDER_ENV, ": ", why.as_str(), "");
                assert(error@ =~= WEB_SEARCH_PROVIDER_ENV@ + ": "@ + unknown_provider(value@)) by {
                    reveal_strlit("");
                }
                return Err(error);
            },
        },
        None => match file.provider {
            Some(provider) => provider,
            None => WebSearchProviderKind::default(),
        },
    };
    let named: Option<String> = match &file.api_key_env {
        Some(name) => environment::clean_value(Some(name.clone())),
        None => None,
    };
    let api_key: Option<String> = match &named {
        Some(name) => env(name.as_str()),
        None => env(provider.default_api_key_env()),
    };
    let generic: Option<String> = env(WEB_SEARCH_BASE_URL_ENV);
    let legacy: Option<String> = if generic.is_none() && provider.is_you() {
        env(YOU_API_BASE_URL_ENV)
    } else {
        None
    };
    let base_url: Option<String> = first_endpoint(generic, legacy, &file.base_url, provider.default_base_url());
    let max_concurrent_queries: Option<NonZeroUsize> = match env(WEB_SEARCH_MAX_CONCURRENT_QUERIES_ENV) {
        Some(value) => {
            let number: NonZeroUsize = environment::nonzero_from_parsed(
                WEB_SEARCH_MAX_CONCURRENT_QUERIES_ENV,
                environment::parse_nonzero(value.as_str()),
            )?;
            Some(number)
        },
        None => file.max_concurrent_queries,
    };
    Ok(
        WebSearchProviderConfig::new(api_key, base_url).with_provider(provider).with_max_concurrent_queries(
            max_concurrent_queries,
        ),
    )
}

/// Seeds `[web_search]` in a generated configuration file from the environment.
///
/// The selected provider and its conventional key variable are written so the file
/// documents which variable the gateway reads; a malformed provider value is ignored
/// here and rejected at startup by [`resolve_web_search_config`].
pub fn generated_web_search_file_config<F>(env: F) -> (file: WebSearchFileConfig) where F: Fn(&str) -> Option<String>
    requires
        forall|name: &str| call_requires(env, (name,)),
    ensures
        forall|model: environment::Environment| #[trigger]
            environment::answers(env, model) ==> file@ == generated_web_search_values(model),
{
    let provider: WebSearchProviderKind = match env(WEB_SEARCH_PROVIDER_ENV) {
        Some(value) => match WebSearchProviderKind::parse(value.as_str()) {
            Ok(provider) => provider,
            Err(_) => WebSearchProviderKind::default(),
        },
        None => WebSearchProviderKind::default(),
    };
    let generic: Option<String> = env(WEB_SEARCH_BASE_URL_ENV);
    let legacy: Option<String> = if generic.is_none() && provider.is_you() {
        env(YOU_API_BASE_URL_ENV)
    } else {
        None
    };
    let base_url: Option<String> = match generic {
        Some(url) => Some(url),
        None => legacy,
    };
    let max_concurrent_queries: Option<NonZeroUsize> = environment::parse_usable_nonzero(
        env(WEB_SEARCH_MAX_CONCURRENT_QUERIES_ENV),
    );
    WebSearchFileConfig {
        provider: Some(provider),
        base_url,
        api_key_env: Some(provider.default_api_key_env().to_owned()),
        max_concurrent_queries,
    }
}

// ---------------------------------------------------------------------------
// Laws
// ---------------------------------------------------------------------------

/// The legacy You.com endpoint never reaches another backend: once Brave is selected,
/// environments that differ in that variable alone give the same settings, as long as
/// the file does not name that very variable as the one that holds the key.
pub proof fn law_legacy_endpoint_is_for_you_alone(
    file: FileValues,
    one: environment::Environment,
    other: environment::Environment,
)
    requires
        forall|name: Seq<char>| name != YOU_API_BASE_URL_ENV@ ==> #[trigger] one(name) == other(name),
        selected_provider(file.provider, one(WEB_SEARCH_PROVIDER_ENV@)) == Ok::<WebSearchProviderKind, Seq<char>>(
            WebSearchProviderKind::Brave,
        ),
        key_variable(file.api_key_env, WebSearchProviderKind::Brave) != YOU_API_BASE_URL_ENV@,
    ensures
        web_search_settings(file, one) == web_search_settings(file, other),
{
    lemma_variables_are_distinct();
}

/// The three override variables and the legacy one are four different variables.
proof fn lemma_variables_are_distinct()
    ensures
        WEB_SEARCH_PROVIDER_ENV@ != YOU_API_BASE_URL_ENV@,
        WEB_SEARCH_BASE_URL_ENV@ != YOU_API_BASE_URL_ENV@,
        WEB_SEARCH_MAX_CONCURRENT_QUERIES_ENV@ != YOU_API_BASE_URL_ENV@,
{
    reveal_strlit("AGENTIC_WEB_SEARCH_PROVIDER");
    reveal_strlit("AGENTIC_WEB_SEARCH_BASE_URL");
    reveal_strlit("AGENTIC_WEB_SEARCH_MAX_CONCURRENT_QUERIES");
    reveal_strlit("YOU_API_BASE_URL");
    assert(WEB_SEARCH_PROVIDER_ENV@[0] != YOU_API_BASE_URL_ENV@[0]);
    assert(WEB_SEARCH_BASE_URL_ENV@[0] != YOU_API_BASE_URL_ENV@[0]);
    assert(WEB_SEARCH_MAX_CONCURRENT_QUERIES_ENV@[0] != YOU_API_BASE_URL_ENV@[0]);
}

/// Each setting comes from the environment where the environment gives it, from the
/// file where only the file does, and from the backend where neither does.
pub proof fn law_environment_outranks_file_outranks_default(file: FileValues, env: environment::Environment)
    ensures
        web_search_settings(file, env) matches Ok(settings) ==> {
            &&& match env(WEB_SEARCH_PROVIDER_ENV@) {
                Some(name) => provider_keyword(name) == Some(settings.provider),
                None => settings.provider == match file.provider {
                    Some(provider) => provider,
                    None => WebSearchProviderKind::You,
                },
            }
            &&& settings.api_key == env(key_variable(file.api_key_env, settings.provider))
            &&& environment_endpoint(env, settings.provider) is Some ==> settings.base_url == environment_endpoint(
                env,
                settings.provider,
            )
            &&& environment_endpoint(env, settings.provider) is None && file.base_url is Some ==> settings.base_url
                == file.base_url
            &&& environment_endpoint(env, settings.provider) is None && file.base_url is None ==> settings.base_url
                == own_endpoint(settings.provider)
            &&& match env(WEB_SEARCH_MAX_CONCURRENT_QUERIES_ENV@) {
                Some(text) => settings.max_concurrent_queries is Some && text::unsigned_value(text) == Some(
                    settings.max_concurrent_queries->Some_0 as nat,
                ),
                None => settings.max_concurrent_queries == file.max_concurrent_queries,
            }
        },
{
}

/// A provider name that is none, or a ceiling that is no positive integer, is refused
/// whatever the file says; nothing else is.
pub proof fn law_malformed_overrides_are_refused(file: FileValues, env: environment::Environment)
    ensures
        web_search_settings(file, env) is Err <==> {
            ||| env(WEB_SEARCH_PROVIDER_ENV@) matches Some(name) && provider_keyword(name) is None
            ||| env(WEB_SEARCH_MAX_CONCURRENT_QUERIES_ENV@) matches Some(text) && !text::stands_for_number(
                text,
                1,
                usize::MAX as nat,
            )
        },
{
}

/// A generated file never pins the endpoint that a backend has of its own, and a
/// malformed provider in the environment leaves You.com in it.
pub proof fn law_generated_file_documents_the_selection(env: environment::Environment)
    ensures
        environment_endpoint(env, named_provider(env(WEB_SEARCH_PROVIDER_ENV@))) is None
            ==> generated_web_search_values(env).base_url is None,
        env(WEB_SEARCH_PROVIDER_ENV@) matches Some(name) && provider_keyword(name) is None
            ==> generated_web_search_values(env).provider == Some(WebSearchProviderKind::You),
        generated_web_search_values(env).provider matches Some(provider)
            && generated_web_search_values(env).api_key_env == Some(conventional_key_variable(provider)),
{
}

/// The name of a key variable is clean as it stands.
proof fn lemma_key_variables_are_clean(provider: WebSearchProviderKind)
    ensures
        text::cleaned(Some(conventional_key_variable(provider))) == Some(conventional_key_variable(provider)),
{
    let name = conventional_key_variable(provider);
    reveal_strlit("YOU_API_KEY");
    reveal_strlit("BRAVE_API_KEY");
    assert(!text::is_white_space(name[0]));
    assert(!text::is_white_space(name.last()));
    assert(text::trimmed(name) == name);
}

/// Writing the generated file changes nothing: in the environment that it was made
/// from, it gives what no file at all gives.
pub proof fn law_generated_file_changes_nothing(env: environment::Environment)
    ensures
        web_search_settings(generated_web_search_values(env), env) == web_search_settings(empty_file(), env),
{
    lemma_key_variables_are_clean(WebSearchProviderKind::You);
    lemma_key_variables_are_clean(WebSearchProviderKind::Brave);
}

/// The generated file stands in for the overrides: once they are gone from the
/// environment, it gives what they gave, where they were valid.
pub proof fn law_generated_file_stands_in_for_overrides(
    env: environment::Environment,
    later: environment::Environment,
)
    requires
        web_search_settings(empty_file(), env) is Ok,
        later(WEB_SEARCH_PROVIDER_ENV@) is None,
        later(WEB_SEARCH_BASE_URL_ENV@) is None,
        later(YOU_API_BASE_URL_ENV@) is None,
        later(WEB_SEARCH_MAX_CONCURRENT_QUERIES_ENV@) is None,
        later("YOU_API_KEY"@) == env("YOU_API_KEY"@),
        later("BRAVE_API_KEY"@) == env("BRAVE_API_KEY"@),
    ensures
        web_search_settings(generated_web_search_values(env), later) == web_search_settings(empty_file(), env),
{
    lemma_key_variables_are_clean(WebSearchProviderKind::You);
    lemma_key_variables_are_clean(WebSearchProviderKind::Brave);
}

/// What a lookup answers, as an environment.
pub open spec fn is_answered_by<F: Fn(&str) -> Option<String>>(model: environment::Environment, env: F) -> bool {
    forall|name: &str, value: Option<String>| #[trigger]
        call_ensures(env, (name,), value) ==> match value {
            Some(text) => model(name@) == Some(text@),
            None => model(name@) is None,
        }
}

proof fn lemma_provider_names()
    ensures
        "you"@.len() == 3,
        "brave"@.len() == 5,
{
    reveal_strlit("you");
    reveal_strlit("brave");
}

/// A backend goes by its name, in any case and with any white space around it; a name
/// that is no backend's is refused and quoted.
pub proof fn law_backends_go_by_their_name(name: &str, r: Result<WebSearchProviderKind, String>)
    requires
        call_ensures(WebSearchProviderKind::parse, (name,), r),
    ensures
        r == Ok::<WebSearchProviderKind, String>(WebSearchProviderKind::You) <==> text::lower(text::trimmed(name@))
            == "you"@,
        r == Ok::<WebSearchProviderKind, String>(WebSearchProviderKind::Brave) <==> text::lower(text::trimmed(name@))
            == "brave"@,
        r matches Err(why) ==> why@ == "unknown web_search provider \""@ + name@
            + "\"; expected one of: you, brave"@,
{
    lemma_provider_names();
}

/// The values of a file part and of settings are their fields.
pub proof fn law_search_values_are_the_fields(file: WebSearchFileConfig, config: WebSearchProviderConfig)
    ensures
        file@.provider == file.provider,
        config@.provider == config.provider,
        match file.base_url {
            Some(url) => file@.base_url == Some(url@),
            None => file@.base_url is None,
        },
        match file.api_key_env {
            Some(name) => file@.api_key_env == Some(name@),
            None => file@.api_key_env is None,
        },
        match file.max_concurrent_queries {
            Some(number) => file@.max_concurrent_queries == Some(number.number()),
            None => file@.max_concurrent_queries is None,
        },
        match config.base_url {
            Some(url) => config@.base_url == Some(url@),
            None => config@.base_url is None,
        },
        match config.api_key {
            Some(key) => config@.api_key == Some(key@),
            None => config@.api_key is None,
        },
        match config.max_concurrent_queries {
            Some(number) => config@.max_concurrent_queries == Some(number.number()),
            None => config@.max_concurrent_queries is None,
        },
{
}

/// The search settings that a file and an environment give, setting by setting: the
/// backend, the variable that the key is read from, the endpoint and the ceiling.
pub proof fn law_resolved_settings_follow_their_sources<F: Fn(&str) -> Option<String>>(
    file: WebSearchFileConfig,
    env: F,
    model: environment::Environment,
    r: Result<WebSearchProviderConfig, Error>,
    config: WebSearchProviderConfig,
)
    requires
        is_answered_by(model, env),
        call_ensures(resolve_web_search_config::<F>, (&file, env), r),
        r == Ok::<WebSearchProviderConfig, Error>(config),
    ensures
        match model("AGENTIC_WEB_SEARCH_PROVIDER"@) {
            Some(name) => {
                &&& config.provider is You <==> text::lower(text::trimmed(name)) == "you"@
                &&& config.provider is Brave <==> text::lower(text::trimmed(name)) == "brave"@
            },
            None => match file.provider {
                Some(provider) => config.provider == provider,
                None => config.provider is You,
            },
        },
        config@.api_key == if file.api_key_env is Some && text::trimmed(file.api_key_env->Some_0@).len() > 0 {
            model(text::trimmed(file.api_key_env->Some_0@))
        } else if config.provider is You {
            model("YOU_API_KEY"@)
        } else {
            model("BRAVE_API_KEY"@)
        },
        config@.base_url == if model("AGENTIC_WEB_SEARCH_BASE_URL"@) is Some {
            model("AGENTIC_WEB_SEARCH_BASE_URL"@)
        } else if config.provider is You && model("YOU_API_BASE_URL"@) is Some {
            model("YOU_API_BASE_URL"@)
        } else if file.base_url is Some {
            Some(file.base_url->Some_0@)
        } else if config.provider is Brave {
            Some("https://api.search.brave.com"@)
        } else {
            None
        },
        match model("AGENTIC_WEB_SEARCH_MAX_CONCURRENT_QUERIES"@) {
            Some(text) => config.max_concurrent_queries matches Some(number) && (number.number() > 0
                && text::unsigned_value(text) == Some(number.number() as nat)),
            None => config@.max_concurrent_queries == file@.max_concurrent_queries,
        },
{
    lemma_provider_names();
    assert(environment::answers(env, model));
    assert(seq![(&file, env)][0].1 == env);
    assert(web_search_settings(file@, model) == Ok::<ProviderValues, Seq<char>>(config@));
}

/// Search settings are refused for a backend name that is none, and else for a ceiling
/// that is no positive integer, and never otherwise; the refusal names the variable.
pub proof fn law_search_refusals_name_their_variable<F: Fn(&str) -> Option<String>>(
    file: WebSearchFileConfig,
    env: F,
    model: environment::Environment,
    r: Result<WebSearchProviderConfig, Error>,
)
    requires
        is_answered_by(model, env),
        call_ensures(resolve_web_search_config::<F>, (&file, env), r),
    ensures
        ({
            let name = model("AGENTIC_WEB_SEARCH_PROVIDER"@);
            let ceiling = model("AGENTIC_WEB_SEARCH_MAX_CONCURRENT_QUERIES"@);
            let nameless = name is Some && text::lower(text::trimmed(name->Some_0)) != "you"@ && text::lower(
                text::trimmed(name->Some_0),
            ) != "brave"@;
            let unusable = ceiling is Some && !(text::unsigned_value(ceiling->Some_0) matches Some(number) && 1
                <= number <= usize::MAX);
            &&& r is Err <==> nameless || unusable
            &&& nameless ==> (r matches Err(error) && error@ == "AGENTIC_WEB_SEARCH_PROVIDER"@ + ": "@ + (
            "unknown web_search provider \""@ + name->Some_0 + "\"; expected one of: you, brave"@))
            &&& !nameless && unusable ==> (r matches Err(error) && error@
                == "AGENTIC_WEB_SEARCH_MAX_CONCURRENT_QUERIES"@ + " must be a positive integer: "@
                + text::nonzero_usize_refusal(ceiling->Some_0))
        }),
{
    lemma_provider_names();
    assert(environment::answers(env, model));
    assert(seq![(&file, env)][0].1 == env);
    law_malformed_overrides_are_refused(file@, model);
}

/// A generated file part records the backend that the environment names, You.com where
/// it names none, that backend's own key variable, the endpoint that the environment
/// gives for it, and a ceiling that can be used.
pub proof fn law_generated_part_records_the_environment<F: Fn(&str) -> Option<String>>(
    env: F,
    model: environment::Environment,
    file: WebSearchFileConfig,
)
    requires
        is_answered_by(model, env),
        call_ensures(generated_web_search_file_config::<F>, (env,), file),
    ensures
        ({
            let name = model("AGENTIC_WEB_SEARCH_PROVIDER"@);
            let brave = name is Some && text::lower(text::trimmed(name->Some_0)) == "brave"@;
            &&& file.provider == Some(
                if brave {
                    WebSearchProviderKind::Brave
                } else {
                    WebSearchProviderKind::You
                },
            )
            &&& file@.api_key_env == Some(
                if brave {
                    "BRAVE_API_KEY"@
                } else {
                    "YOU_API_KEY"@
                },
            )
            &&& file@.base_url == if model("AGENTIC_WEB_SEARCH_BASE_URL"@) is Some {
                model("AGENTIC_WEB_SEARCH_BASE_URL"@)
            } else if !brave {
                model("YOU_API_BASE_URL"@)
            } else {
                None
            }
            &&& match model("AGENTIC_WEB_SEARCH_MAX_CONCURRENT_QUERIES"@) {
                Some(text) => match text::unsigned_value(text) {
                    Some(number) => if 1 <= number <= usize::MAX {
                        file@.max_concurrent_queries == Some(number as usize)
                    } else {
                        file@.max_concurrent_queries is None
                    },
                    None => file@.max_concurrent_queries is None,
                },
                None => file@.max_concurrent_queries is None,
            }
        }),
{
    lemma_provider_names();
    assert(environment::answers(env, model));
    assert(seq![(env,)][0].0 == env);
    assert(file@ == generated_web_search_values(model));
}

/// Building settings step by step: each step sets what it names and keeps the rest.
pub proof fn law_search_settings_are_built_step_by_step(
    api_key: Option<String>,
    base_url: Option<String>,
    provider: WebSearchProviderKind,
    ceiling: Option<NonZeroUsize>,
    made: WebSearchProviderConfig,
    moved: WebSearchProviderConfig,
    bounded: WebSearchProviderConfig,
    key_variable: &'static str,
    endpoint: Option<&'static str>,
    empty: WebSearchFileConfig,
    usual: WebSearchProviderKind,
    you: bool,
)
    requires
        call_ensures(WebSearchProviderConfig::new, (api_key, base_url), made),
        call_ensures(WebSearchProviderConfig::with_provider, (made, provider), moved),
        call_ensures(WebSearchProviderConfig::with_max_concurrent_queries, (moved, ceiling), bounded),
        call_ensures(WebSearchProviderKind::default_api_key_env, (provider,), key_variable),
        call_ensures(WebSearchProviderKind::default_base_url, (provider,), endpoint),
        call_ensures(WebSearchFileConfig::default, (), empty),
        call_ensures(WebSearchProviderKind::default, (), usual),
        call_ensures(WebSearchProviderKind::is_you, (provider,), you),
    ensures
        usual is You,
        you <==> provider is You,
        made.provider is You && made.max_concurrent_queries is None,
        bounded.api_key == api_key && bounded.base_url == base_url,
        bounded.provider == provider && bounded.max_concurrent_queries == ceiling,
        provider is You ==> key_variable@ == "YOU_API_KEY"@ && endpoint is None,
        provider is Brave ==> key_variable@ == "BRAVE_API_KEY"@ && (endpoint matches Some(url) && url@
            == "https://api.search.brave.com"@),
        empty.provider is None && empty@.base_url is None && empty@.api_key_env is None,
        empty@.max_concurrent_queries is None,
{
}

} // verus!
