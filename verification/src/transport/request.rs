//! What goes over the wire for one record: a POST to the configured
//! endpoint that carries the access token in a header.

use crate::configuration::Configuration;
use vstd::prelude::*;

verus! {

/// Name of the header that carries the access token.
pub const ACCESS_TOKEN_HEADER: &'static str = "X-Rollbar-Access-Token";

/// Where one record is posted to and with which credential. The body is
/// the record itself, serialised by the host.
#[derive(Clone, Debug)]
pub struct DeliveryRequest {
    /// URL the record is posted to.
    pub endpoint: String,
    /// Value of the access-token header.
    pub access_token: String,
    /// Seconds the request may take.
    pub timeout: u64,
}

/// The request for a record that brings its own access token.
pub fn request_with_token(configuration: &Configuration, access_token: &str) -> (request:
    DeliveryRequest)
    ensures
        request.endpoint@ == configuration.endpoint@,
        request.access_token@ == access_token@,
        request.timeout == configuration.timeout,
{
    DeliveryRequest {
        endpoint: configuration.endpoint.as_str().to_owned(),
        access_token: access_token.to_owned(),
        timeout: configuration.timeout,
    }
}

/// The request for a record that is sent with the transport's own access
/// token. Without a token in the settings there is no request, and the
/// record is not sent.
pub fn post_request(configuration: &Configuration) -> (request: Option<DeliveryRequest>)
    ensures
        configuration.access_token is None <==> request is None,
        request matches Some(r) ==> {
            &&& r.endpoint@ == configuration.endpoint@
            &&& r.access_token@ == configuration.access_token->0@
            &&& r.timeout == configuration.timeout
        },
{
    match &configuration.access_token {
        None => None,
        Some(token) => Some(request_with_token(configuration, token.as_str())),
    }
}

} // verus!
