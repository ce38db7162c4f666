//! What the desktop's provider transport allows through: only plain HTTPS
//! endpoints, no caller-set credential headers, the secret only as a bearer
//! authorization, and bounded responses; a cancelled request never returns.
use crate::provider_settings::CredentialServiceError;
use crate::text::{contains_ci, contains_marker_ci, equals_ci, same_text, same_text_ci};
use vstd::prelude::*;
use vstd::string::StringExecFns;
use vstd::string::StrSliceExecFns;
use vstd::string::StringSliceAdditionalSpecFns;

verus! {

/// Largest response body the transport accepts by default, in bytes.
pub const DEFAULT_MAX_RESPONSE_BYTES: usize = 2_097_152;

/// How a provider request failed in the transport.
#[derive(Debug, Clone, Copy, PartialEq, Eq, Structural)]
pub enum ProviderTransportError {
    Cancelled,
    Timeout,
    Unavailable,
    RequestTooLarge,
    ResponseTooLarge,
}

/// Whether a header name, lower-cased in ASCII, names a credential: an
/// authorization or cookie header, or one that mentions an API key, a
/// token or a secret.
pub open spec fn sensitive_name(b: Seq<u8>) -> bool {
    ||| equals_ci(b, "authorization".spec_bytes())
    ||| equals_ci(b, "cookie".spec_bytes())
    ||| equals_ci(b, "set-cookie".spec_bytes())
    ||| contains_ci(b, "api-key".spec_bytes())
    ||| contains_ci(b, "apikey".spec_bytes())
    ||| contains_ci(b, "token".spec_bytes())
    ||| contains_ci(b, "secret".spec_bytes())
}

/// Whether a caller-set header could carry a credential.
pub fn is_sensitive_header(name: &str) -> (r: bool)
    ensures
        r == sensitive_name(name.spec_bytes()),
{
    same_text_ci(name, "authorization") || same_text_ci(name, "cookie") || same_text_ci(
        name,
        "set-cookie",
    ) || contains_marker_ci(name, "api-key") || contains_marker_ci(name, "apikey")
        || contains_marker_ci(name, "token") || contains_marker_ci(name, "secret")
}

/// The parts of a parsed endpoint the transport looks at.
#[derive(Debug, Clone)]
pub struct EndpointParts {
    pub scheme: String,
    pub has_host: bool,
    pub username: String,
    pub has_password: bool,
    pub has_port: bool,
    pub has_query: bool,
    pub has_fragment: bool,
}

/// An endpoint is usable only as `https` with a host, and with no user,
/// password, explicit port, query or fragment.
pub open spec fn endpoint_ok(e: EndpointParts) -> bool {
    &&& e.scheme@ == "https"@
    &&& e.has_host
    &&& e.username@.len() == 0
    &&& !e.has_password
    &&& !e.has_port
    &&& !e.has_query
    &&& !e.has_fragment
}

pub fn endpoint_allowed(e: &EndpointParts) -> (r: bool)
    ensures
        r == endpoint_ok(*e),
{
    same_text(e.scheme.as_str(), "https") && e.has_host && e.username.as_str().unicode_len() == 0
        && !e.has_password && !e.has_port && !e.has_query && !e.has_fragment
}

/// Why a request is refused before any credential is read or any byte
/// sent, if it is: a cancelled request, a zero timeout, an endpoint that
/// does not parse or is not plain HTTPS, or a caller-set credential header.
pub open spec fn request_refusal(
    cancelled: bool,
    timeout_zero: bool,
    endpoint: Option<EndpointParts>,
    header_names: Seq<String>,
) -> Option<ProviderTransportError> {
    if cancelled {
        Some(ProviderTransportError::Cancelled)
    } else if timeout_zero {
        Some(ProviderTransportError::Timeout)
    } else if !(endpoint matches Some(e) && endpoint_ok(e)) {
        Some(ProviderTransportError::Unavailable)
    } else if exists|k: int| 0 <= k < header_names.len() && sensitive_name(vstd::utf8::encode_utf8(#[trigger] header_names[k]@)) {
        Some(ProviderTransportError::Unavailable)
    } else {
        None
    }
}

/// Checks a request before its credential is read.
pub fn precheck(
    cancelled: bool,
    timeout_zero: bool,
    endpoint: Option<&EndpointParts>,
    header_names: &[String],
) -> (r: Result<(), ProviderTransportError>)
    ensures
        match request_refusal(
            cancelled,
            timeout_zero,
            match endpoint {
                Some(e) => Some(*e),
                None => None,
            },
            header_names@,
        ) {
            None => r is Ok,
            Some(e) => r == Err::<(), ProviderTransportError>(e),
        },
{
    if cancelled {
        return Err(ProviderTransportError::Cancelled);
    }
    if timeout_zero {
        return Err(ProviderTransportError::Timeout);
    }
    match endpoint {
        Some(e) => {
            if !endpoint_allowed(e) {
                return Err(ProviderTransportError::Unavailable);
            }
        },
        None => {
            return Err(ProviderTransportError::Unavailable);
        },
    }
    let mut k: usize = 0;
    while k < header_names.len()
        invariant
            !cancelled,
            !timeout_zero,
            endpoint matches Some(e) && endpoint_ok(*e),
            k <= header_names@.len(),
            forall|m: int| 0 <= m < k ==> !sensitive_name(vstd::utf8::encode_utf8(#[trigger] header_names@[m]@)),
        decreases header_names@.len() - k,
    {
        let name = header_names[k].as_str();
        assert(name.spec_bytes() == vstd::utf8::encode_utf8(header_names@[k as int]@));
        if is_sensitive_header(name) {
            assert(sensitive_name(vstd::utf8::encode_utf8(header_names@[k as int]@)));
            return Err(ProviderTransportError::Unavailable);
        }
        k = k + 1;
    }
    Ok(())
}

/// The transport error of a failed credential lookup: a cancelled lookup
/// is a cancelled request, any other failure an unavailable provider.
pub fn resolver_error(error: CredentialServiceError) -> (r: ProviderTransportError)
    ensures
        r == (if error == CredentialServiceError::Cancelled {
            ProviderTransportError::Cancelled
        } else {
            ProviderTransportError::Unavailable
        }),
{
    match error {
        CredentialServiceError::Cancelled => ProviderTransportError::Cancelled,
        _ => ProviderTransportError::Unavailable,
    }
}

/// The authorization header value that carries a secret.
pub fn bearer(secret: &str) -> (r: String)
    ensures
        r@ == "Bearer "@ + secret@,
{
    let mut s = "Bearer ".to_string();
    s.append(secret);
    s
}

/// A response the executor answered: refused when the request was
/// cancelled meanwhile, or when its body exceeds the bound.
pub fn check_response(cancelled: bool, body_len: usize, max_response_bytes: usize) -> (r: Result<
    (),
    ProviderTransportError,
>)
    ensures
        cancelled ==> r == Err::<(), ProviderTransportError>(ProviderTransportError::Cancelled),
        !cancelled && body_len > max_response_bytes ==> r == Err::<(), ProviderTransportError>(
            ProviderTransportError::ResponseTooLarge,
        ),
        !cancelled && body_len <= max_response_bytes ==> r is Ok,
{
    if cancelled {
        return Err(ProviderTransportError::Cancelled);
    }
    if body_len > max_response_bytes {
        return Err(ProviderTransportError::ResponseTooLarge);
    }
    Ok(())
}

/// A response whose announced length exceeds the bound is refused before
/// its body is read.
pub fn check_content_length(length: Option<u64>, max_response_bytes: usize) -> (r: Result<
    (),
    ProviderTransportError,
>)
    ensures
        r is Err <==> (length matches Some(l) && l > max_response_bytes),
        r is Err ==> r == Err::<(), ProviderTransportError>(ProviderTransportError::ResponseTooLarge),
{
    match length {
        Some(l) => if l as u128 > max_response_bytes as u128 {
            Err(ProviderTransportError::ResponseTooLarge)
        } else {
            Ok(())
        },
        None => Ok(()),
    }
}

/// How many body bytes the executor reads: one past the bound, so that an
/// oversized body is seen.
pub fn read_limit(max_response_bytes: usize) -> (r: usize)
    ensures
        r == (if max_response_bytes == usize::MAX { usize::MAX as int } else { max_response_bytes + 1 }),
{
    max_response_bytes.saturating_add(1)
}

/// The failure of a request that never got an answer: a timeout, or an
/// unavailable provider.
pub fn send_failure(timed_out: bool) -> (r: ProviderTransportError)
    ensures
        r == (if timed_out { ProviderTransportError::Timeout } else { ProviderTransportError::Unavailable }),
{
    if timed_out {
        ProviderTransportError::Timeout
    } else {
        ProviderTransportError::Unavailable
    }
}

} // verus!
