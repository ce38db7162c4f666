use agent_core::http_transport::{
    bearer, check_content_length, check_response, endpoint_allowed, is_sensitive_header,
    precheck, read_limit, resolver_error, send_failure, EndpointParts, ProviderTransportError,
    DEFAULT_MAX_RESPONSE_BYTES,
};
use agent_core::provider_settings::CredentialServiceError;

fn endpoint(scheme: &str) -> EndpointParts {
    EndpointParts {
        scheme: scheme.into(),
        has_host: true,
        username: String::new(),
        has_password: false,
        has_port: false,
        has_query: false,
        has_fragment: false,
    }
}

fn headers() -> Vec<String> {
    vec!["content-type".to_string()]
}

#[test]
fn injects_secret_only_as_bounded_authorization_header() {
    let https = endpoint("https");
    assert_eq!(precheck(false, false, Some(&https), &headers()), Ok(()));
    assert_eq!(bearer("synthetic-provider-material"), "Bearer synthetic-provider-material");
    assert_eq!(check_response(false, 2, DEFAULT_MAX_RESPONSE_BYTES), Ok(()));
    // A caller may not set the authorization itself.
    let forged = vec!["Authorization".to_string()];
    assert_eq!(precheck(false, false, Some(&https), &forged), Err(ProviderTransportError::Unavailable));
}

#[test]
fn rejects_insecure_endpoint_before_resolving_or_network() {
    let http = endpoint("http");
    assert_eq!(precheck(false, false, Some(&http), &headers()), Err(ProviderTransportError::Unavailable));
    assert_eq!(precheck(false, false, None, &headers()), Err(ProviderTransportError::Unavailable));
}

#[test]
fn cancellation_and_response_limits_fail_closed() {
    let https = endpoint("https");
    assert_eq!(precheck(true, false, Some(&https), &headers()), Err(ProviderTransportError::Cancelled));
    assert_eq!(check_response(false, 16, 8), Err(ProviderTransportError::ResponseTooLarge));
    assert_eq!(check_response(true, 1, 8), Err(ProviderTransportError::Cancelled));
}

#[test]
fn credential_headers_are_recognised_in_any_case() {
    for name in ["authorization", "Cookie", "SET-COOKIE", "x-api-key", "X-ApiKey", "x-auth-token", "client_secret"] {
        assert!(is_sensitive_header(name), "{name}");
    }
    for name in ["content-type", "accept", "x-cookie-policy", "authorization2"] {
        assert!(!is_sensitive_header(name), "{name}");
    }
}

#[test]
fn endpoints_must_be_plain_https() {
    assert!(endpoint_allowed(&endpoint("https")));
    assert!(!endpoint_allowed(&EndpointParts { has_port: true, ..endpoint("https") }));
    assert!(!endpoint_allowed(&EndpointParts { username: "u".into(), ..endpoint("https") }));
    assert!(!endpoint_allowed(&EndpointParts { has_query: true, ..endpoint("https") }));
    assert!(!endpoint_allowed(&EndpointParts { has_host: false, ..endpoint("https") }));
    assert_eq!(precheck(false, true, Some(&endpoint("https")), &headers()), Err(ProviderTransportError::Timeout));
}

#[test]
fn transport_failures_are_classified() {
    assert_eq!(resolver_error(CredentialServiceError::Cancelled), ProviderTransportError::Cancelled);
    assert_eq!(resolver_error(CredentialServiceError::Missing), ProviderTransportError::Unavailable);
    assert_eq!(send_failure(true), ProviderTransportError::Timeout);
    assert_eq!(send_failure(false), ProviderTransportError::Unavailable);
    assert_eq!(check_content_length(Some(9), 8), Err(ProviderTransportError::ResponseTooLarge));
    assert_eq!(check_content_length(Some(8), 8), Ok(()));
    assert_eq!(check_content_length(None, 8), Ok(()));
    assert_eq!(read_limit(8), 9);
    assert_eq!(read_limit(usize::MAX), usize::MAX);
}
