//! Responses transport selection. Opaque replay cannot inherit caller client state.

use std::sync::Arc;
use std::time::Duration;

use vstd::prelude::*;

use crate::executor::error::ExecutorError;
use crate::settings::environment;

verus! {

/// `reqwest::Client`, carried through as it is.
#[verifier::external_type_specification]
#[verifier::external_body]
pub struct ExClient(reqwest::Client);

/// The status of a failure of the gateway itself.
pub const INTERNAL_SERVER_ERROR: u16 = 500;

/// What a failed response may say.
#[derive(Debug, Clone, Copy, PartialEq, Eq, Structural)]
pub enum ResponsePolicy {
    Compatible,
    Opaque,
}

/// What a client does with a redirect.
#[derive(Debug, Clone, Copy, PartialEq, Eq, Structural)]
pub enum RedirectRule {
    /// Hand it on as the response.
    NeverFollow,
}

/// What a client does with a request that failed.
#[derive(Debug, Clone, Copy, PartialEq, Eq, Structural)]
pub enum RetryRule {
    NeverRetry,
}

/// Which proxies a client goes through.
#[derive(Debug, Clone, Copy, PartialEq, Eq, Structural)]
pub enum ProxyRule {
    /// None, whatever the environment or the system says.
    NoProxy,
}

/// The settings of a client that reaches its server directly.
#[derive(Debug, Clone, Copy, PartialEq, Eq)]
pub struct DirectClientSettings {
    pub https_only: bool,
    pub redirects: RedirectRule,
    pub retries: RetryRule,
    pub proxies: ProxyRule,
    pub connect_timeout: Duration,
    pub read_timeout: Duration,
    pub pool_max_idle_per_host: usize,
}

/// A client of its own, with the settings that it was built with. Nothing but these
/// settings goes into it: no caller's headers, cookies or connections.
#[derive(Debug)]
pub struct DirectClient {
    client: reqwest::Client,
    settings: DirectClientSettings,
}

impl DirectClient {
    /// The client.
    pub closed spec fn client(self) -> reqwest::Client {
        self.client
    }

    /// The settings that it was built with.
    pub closed spec fn settings(self) -> DirectClientSettings {
        self.settings
    }
}

/// Immutable client and error policy; no per-request credential is retained here.
#[derive(Debug)]
pub struct ResponsesTransport {
    client: Arc<reqwest::Client>,
    response_policy: ResponsePolicy,
    /// The settings that the client was built with, where it is the gateway's own.
    direct: Option<DirectClientSettings>,
}

/// The settings of the opaque client: HTTPS alone, no redirects, no retries, no proxy,
/// half a minute to connect, ten minutes between reads, and one idle connection per
/// host.
pub open spec fn are_opaque_settings(settings: DirectClientSettings) -> bool {
    &&& settings.https_only
    &&& settings.redirects == RedirectRule::NeverFollow
    &&& settings.retries == RetryRule::NeverRetry
    &&& settings.proxies == ProxyRule::NoProxy
    &&& settings.connect_timeout == environment::duration_of_secs(30)
    &&& settings.read_timeout == environment::duration_of_secs(600)
    &&& settings.pool_max_idle_per_host == 1
}

/// The failure to set the opaque transport up.
pub open spec fn initialization_failure(error: ExecutorError) -> bool {
    error matches ExecutorError::LLMTransport { status, message } && status == INTERNAL_SERVER_ERROR && message@
        == "failed to initialize opaque Responses transport"@
}

/// `reqwest::ClientBuilder::build`, on a fresh builder with each of the settings at
/// hand set by the builder method of its name: a client, where one is built, comes with
/// the settings that it was built with. When one is built is left unsaid, since that
/// rests on the machine's TLS backend and resolver; why none was built is dropped, and
/// the client itself is carried through unseen.
#[verifier::external_body]
fn build_direct_client(settings: &DirectClientSettings) -> (built: Option<DirectClient>)
    ensures
        built matches Some(direct) ==> direct.settings() == *settings,
{
    let redirects = match settings.redirects { RedirectRule::NeverFollow => reqwest::redirect::Policy::none() };
    let retries = match settings.retries { RetryRule::NeverRetry => reqwest::retry::never() };
    let builder = reqwest::Client::builder().https_only(settings.https_only).redirect(redirects).retry(retries);
    let builder = match settings.proxies { ProxyRule::NoProxy => builder.no_proxy() };
    builder
        .connect_timeout(settings.connect_timeout)
        .read_timeout(settings.read_timeout)
        .pool_max_idle_per_host(settings.pool_max_idle_per_host)
        .build()
        .ok()
        .map(|client| DirectClient { client, settings: *settings })
}

/// The settings of the opaque client.
pub fn opaque_client_settings() -> (settings: DirectClientSettings)
    ensures
        are_opaque_settings(settings),
{
    DirectClientSettings {
        https_only: true,
        redirects: RedirectRule::NeverFollow,
        retries: RetryRule::NeverRetry,
        proxies: ProxyRule::NoProxy,
        connect_timeout: Duration::from_secs(30),
        read_timeout: Duration::from_secs(600),
        pool_max_idle_per_host: 1,
    }
}

impl Clone for ResponsesTransport {
    fn clone(&self) -> (copy: Self)
        ensures
            copy == *self,
    {
        ResponsesTransport {
            client: Arc::clone(&self.client),
            response_policy: self.response_policy,
            direct: self.direct,
        }
    }
}

impl ResponsesTransport {
    /// The client that requests go out through.
    pub closed spec fn client_spec(self) -> Arc<reqwest::Client> {
        self.client
    }

    /// The error policy.
    pub closed spec fn policy_spec(self) -> ResponsePolicy {
        self.response_policy
    }

    /// The settings that the client was built with, where it is the gateway's own.
    pub closed spec fn direct_spec(self) -> Option<DirectClientSettings> {
        self.direct
    }

    /// The client is one that was built with the opaque settings.
    pub closed spec fn built_as_opaque(self) -> bool {
        exists|settings: DirectClientSettings, direct: DirectClient|
            are_opaque_settings(settings) && self.direct == Some(settings) && *self.client == direct.client()
                && #[trigger] call_ensures(build_direct_client, (&settings,), Some(direct))
    }

    /// The client that requests go out through.
    pub fn client(&self) -> (client: &Arc<reqwest::Client>)
        ensures
            *client == self.client_spec(),
    {
        &self.client
    }

    /// The error policy.
    pub fn response_policy(&self) -> (policy: ResponsePolicy)
        ensures
            policy == self.policy_spec(),
    {
        self.response_policy
    }

    /// The settings that the client was built with, where it is the gateway's own.
    pub fn direct_settings(&self) -> (settings: Option<DirectClientSettings>)
        ensures
            settings == self.direct_spec(),
    {
        self.direct
    }

    /// A transport over the caller's client.
    pub fn shared(client: Arc<reqwest::Client>) -> (transport: Self)
        ensures
            transport.client_spec() == client,
            transport.policy_spec() == ResponsePolicy::Compatible,
            transport.direct_spec() is None,
    {
        ResponsesTransport { client, response_policy: ResponsePolicy::Compatible, direct: None }
    }

    /// The opaque transport over a client that was built for it.
    ///
    /// # Errors
    /// Says that the transport cannot be set up where no client was built.
    pub fn opaque_over(built: Option<DirectClient>) -> (r: Result<Self, ExecutorError>)
        ensures
            match built {
                Some(direct) => r matches Ok(transport) && *transport.client_spec() == direct.client()
                    && transport.policy_spec() == ResponsePolicy::Opaque && transport.direct_spec() == Some(
                    direct.settings(),
                ),
                None => r matches Err(error) && initialization_failure(error),
            },
    {
        match built {
            Some(direct) => Ok(
                ResponsesTransport {
                    client: Arc::new(direct.client),
                    response_policy: ResponsePolicy::Opaque,
                    direct: Some(direct.settings),
                },
            ),
            None => Err(
                ExecutorError::LLMTransport {
                    status: INTERNAL_SERVER_ERROR,
                    message: "failed to initialize opaque Responses transport",
                },
            ),
        }
    }

    /// The pinned profile uses direct HTTPS with only its per-request bearer
    /// credential. No redirects, environment proxies, retries, cookies, or caller
    /// default headers can silently change the qualified routing identity.
    ///
    /// # Errors
    /// Says that the transport cannot be set up where no client can be built.
    pub fn opaque() -> (r: Result<Self, ExecutorError>)
        ensures
            match r {
                Ok(transport) => {
                    &&& transport.policy_spec() == ResponsePolicy::Opaque
                    &&& transport.built_as_opaque()
                    &&& transport.direct_spec() matches Some(settings) && are_opaque_settings(settings)
                },
                Err(error) => initialization_failure(error),
            },
    {
        let settings: DirectClientSettings = opaque_client_settings();
        let built: Option<DirectClient> = build_direct_client(&settings);
        assert(call_ensures(build_direct_client, (&settings,), built));
        Self::opaque_over(built)
    }
}

// ---------------------------------------------------------------------------
// Laws
// ---------------------------------------------------------------------------

/// The opaque client goes straight to its server over HTTPS, follows nothing, retries
/// nothing, waits half a minute for a connection and ten minutes for data, and keeps one
/// idle connection.
pub proof fn law_opaque_clients_are_direct(settings: DirectClientSettings)
    requires
        call_ensures(opaque_client_settings, (), settings),
    ensures
        settings.https_only,
        settings.redirects is NeverFollow,
        settings.retries is NeverRetry,
        settings.proxies is NoProxy,
        settings.connect_timeout == environment::duration_of_secs(30),
        settings.read_timeout == environment::duration_of_secs(600),
        settings.pool_max_idle_per_host == 1,
{
}

/// An opaque transport is never one over a caller's client: it shows the opaque policy
/// and the settings of a client of its own, and a shared one shows neither.
pub proof fn law_opaque_and_shared_transports_differ(
    r: Result<ResponsesTransport, ExecutorError>,
    opaque: ResponsesTransport,
    client: Arc<reqwest::Client>,
    shared: ResponsesTransport,
    copy: ResponsesTransport,
    opaque_policy: ResponsePolicy,
    opaque_settings: Option<DirectClientSettings>,
    shared_policy: ResponsePolicy,
    shared_settings: Option<DirectClientSettings>,
    shared_client: &Arc<reqwest::Client>,
)
    requires
        call_ensures(ResponsesTransport::opaque, (), r),
        r == Ok::<ResponsesTransport, ExecutorError>(opaque),
        call_ensures(ResponsesTransport::shared, (client,), shared),
        call_ensures(ResponsesTransport::clone, (&opaque,), copy),
        call_ensures(ResponsesTransport::response_policy, (&opaque,), opaque_policy),
        call_ensures(ResponsesTransport::direct_settings, (&opaque,), opaque_settings),
        call_ensures(ResponsesTransport::response_policy, (&shared,), shared_policy),
        call_ensures(ResponsesTransport::direct_settings, (&shared,), shared_settings),
        call_ensures(ResponsesTransport::client, (&shared,), shared_client),
    ensures
        opaque_policy is Opaque,
        shared_policy is Compatible,
        *shared_client == client,
        shared_settings is None,
        copy == opaque,
        opaque_settings matches Some(settings) && {
            &&& settings.https_only
            &&& settings.redirects is NeverFollow
            &&& settings.retries is NeverRetry
            &&& settings.proxies is NoProxy
            &&& settings.connect_timeout == environment::duration_of_secs(30)
            &&& settings.read_timeout == environment::duration_of_secs(600)
            &&& settings.pool_max_idle_per_host == 1
        },
{
}

/// Without a client there is no opaque transport, and the failure says so and no more;
/// with one, the transport is over that client and shows its settings.
pub proof fn law_opaque_transport_is_over_its_client(
    built: Option<DirectClient>,
    r: Result<ResponsesTransport, ExecutorError>,
)
    requires
        call_ensures(ResponsesTransport::opaque_over, (built,), r),
    ensures
        match built {
            Some(direct) => r matches Ok(transport) && {
                &&& *transport.client_spec() == direct.client()
                &&& transport.policy_spec() is Opaque
                &&& transport.direct_spec() == Some(direct.settings())
            },
            None => r matches Err(ExecutorError::LLMTransport { status, message }) && (status == 500 && message@
                == "failed to initialize opaque Responses transport"@),
        },
{
}

} // verus!
