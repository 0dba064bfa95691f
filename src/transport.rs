//! The transport library's address parsing, taken on trust.
use vstd::prelude::*;

verus! {

/// An address that the transport library accepted as a URI, ready to connect to.
#[verifier::external_type_specification]
#[verifier::external_body]
pub struct ExEndpoint(tonic::transport::Endpoint);

/// A failure of the transport library.
#[verifier::external_type_specification]
#[verifier::external_body]
pub struct ExTransportError(tonic::transport::Error);

/// Whether the transport library accepts an address as a URI.
pub uninterp spec fn address_parses(address: Seq<char>) -> bool;

/// Where a call connects to: an address that the transport library accepted,
/// together with the endpoint it parsed the address into. Only the parsing
/// below builds one, so the endpoint always stands for the address.
#[derive(Debug)]
pub struct Target {
    address: String,
    endpoint: tonic::transport::Endpoint,
}

impl View for Target {
    type V = Seq<char>;

    /// The address that the target was parsed from.
    closed spec fn view(&self) -> Seq<char> {
        self.address@
    }
}

impl Target {
    /// The address that the target was parsed from.
    pub fn address(&self) -> (r: &String)
        ensures
            r@ == self@,
    {
        &self.address
    }

    /// The endpoint to open the connection with.
    pub fn endpoint(&self) -> &tonic::transport::Endpoint {
        &self.endpoint
    }
}

/// Relies on tonic::transport::Endpoint::from_shared, which `connect` uses on a
/// `String` address: it parses the address as a URI, and an empty one is refused.
/// The endpoint it returns is kept with the address it came from.
#[verifier::external_body]
pub(crate) fn parse_target(address: &String) -> (r: Result<Target, tonic::transport::Error>)
    ensures
        r.is_ok() == address_parses(address@),
        address@.len() == 0 ==> r.is_err(),
        r matches Ok(t) ==> t@ == address@,
{
    match tonic::transport::Endpoint::from_shared(address.clone()) {
        Ok(endpoint) => Ok(Target { address: address.clone(), endpoint }),
        Err(e) => Err(e),
    }
}

/// Relies on the `Display` impl of tonic::transport::Error for the text of a failure.
#[verifier::external_body]
pub(crate) fn transport_error_text(e: &tonic::transport::Error) -> String {
    e.to_string()
}

} // verus!
