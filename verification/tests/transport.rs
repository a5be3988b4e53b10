use std::sync::Arc;
use std::time::Duration;

use agentic_server::executor::error::ExecutorError;
use agentic_server::executor::transport::{
    opaque_client_settings, ProxyRule, RedirectRule, ResponsePolicy, ResponsesTransport, RetryRule,
};

#[test]
fn opaque_client_is_direct_and_bounded() {
    let settings = opaque_client_settings();
    assert!(settings.https_only);
    assert_eq!(settings.redirects, RedirectRule::NeverFollow);
    assert_eq!(settings.retries, RetryRule::NeverRetry);
    assert_eq!(settings.proxies, ProxyRule::NoProxy);
    assert_eq!(settings.connect_timeout, Duration::from_secs(30));
    assert_eq!(settings.read_timeout, Duration::from_secs(600));
    assert_eq!(settings.pool_max_idle_per_host, 1);
}

#[test]
fn opaque_transport_has_a_client_of_its_own() {
    let transport = ResponsesTransport::opaque().expect("a client can be built");
    assert_eq!(transport.response_policy(), ResponsePolicy::Opaque);
    assert_eq!(transport.direct_settings(), Some(opaque_client_settings()));
    let rendered = format!("{:?}", transport.client());
    assert!(rendered.contains("Policy(None)"), "{rendered}");
    assert!(rendered.contains("read_timeout: 600s"), "{rendered}");
}

#[test]
fn opaque_transport_reports_a_client_that_cannot_be_built() {
    let error = ResponsesTransport::opaque_over(None).expect_err("no client");
    assert_eq!(
        error,
        ExecutorError::LLMTransport {
            status: 500,
            message: "failed to initialize opaque Responses transport",
        }
    );
}

#[test]
fn shared_transport_keeps_the_caller_client() {
    let client = Arc::new(reqwest::Client::new());
    let transport = ResponsesTransport::shared(Arc::clone(&client)).clone();
    assert_eq!(transport.response_policy(), ResponsePolicy::Compatible);
    assert_eq!(transport.direct_settings(), None);
    assert!(Arc::ptr_eq(transport.client(), &client));
}
