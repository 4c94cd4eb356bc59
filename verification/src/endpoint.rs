//! Endpoint descriptions, `opcua_types::EndpointDescription`.

use opcua_types::EndpointDescription;
use vstd::prelude::*;

verus! {

/// Declares `opcua_types::EndpointDescription`.
#[verifier::external_type_specification]
#[verifier::external_body]
pub struct ExEndpointDescription(EndpointDescription);

/// The URL in an endpoint description. A null string counts as empty.
pub uninterp spec fn url_of(endpoint: EndpointDescription) -> Seq<char>;

/// The description that `EndpointDescription::from` gives for a URL: no security, and nothing
/// known of the server.
pub uninterp spec fn unsecured_endpoint(url: Seq<char>) -> EndpointDescription;

/// Reads the field `endpoint_url` with `UAString::as_ref`.
///
/// The contract gives the result its name.
#[verifier::external_body]
pub(crate) fn endpoint_url(endpoint: &EndpointDescription) -> (res: String)
    ensures
        res@ == url_of(*endpoint),
{
    endpoint.endpoint_url.as_ref().to_string()
}

/// Calls `EndpointDescription::from` for a URL.
///
/// The contract gives the result its name and claims that it holds the URL.
#[verifier::external_body]
pub(crate) fn endpoint_from_url(url: &str) -> (res: EndpointDescription)
    ensures
        res == unsecured_endpoint(url@),
        url_of(res) == url@,
{
    EndpointDescription::from(url)
}

/// Calls `EndpointDescription::clone`.
///
/// The contract claims an equal description.
#[verifier::external_body]
pub(crate) fn clone_endpoint(endpoint: &EndpointDescription) -> (res: EndpointDescription)
    ensures
        res == *endpoint,
{
    endpoint.clone()
}

} // verus!
