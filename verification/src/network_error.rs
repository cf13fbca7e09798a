//! The most general error layer: everything a caller of the networking
//! surface can see.
//!
//! The transport-specific payloads (an HTTP status, an I/O or request
//! failure, a serializer failure) are carried as the plain values the logic
//! reads — the status as its numeric code, the rest as their diagnostic
//! text — so that the layer stays fully visible to the verifier.

use vstd::prelude::*;

use crate::client_error::ClientError;
use crate::gateway_error::GatewayError;

verus! {

#[derive(Debug, Clone)]
pub enum NetworkError {
    ClientError(ClientError),
    ConnectionError(String),
    CustomError(String),
    GatewayError(GatewayError),
    HttpError(u16),
    IoError(String),
    RequestError(String),
    SerdeError(String),
}

impl NetworkError {
    /// The tag of the variant, as a short static name.
    pub fn kind(&self) -> (r: &'static str)
        ensures
            self is ClientError ==> r@ == "ClientError"@,
            self is ConnectionError ==> r@ == "ConnectionError"@,
            self is CustomError ==> r@ == "CustomError"@,
            self is GatewayError ==> r@ == "GatewayError"@,
            self is HttpError ==> r@ == "HttpError"@,
            self is IoError ==> r@ == "IoError"@,
            self is RequestError ==> r@ == "RequestError"@,
            self is SerdeError ==> r@ == "SerdeError"@,
    {
        match self {
            NetworkError::ClientError(_) => "ClientError",
            NetworkError::ConnectionError(_) => "ConnectionError",
            NetworkError::CustomError(_) => "CustomError",
            NetworkError::GatewayError(_) => "GatewayError",
            NetworkError::HttpError(_) => "HttpError",
            NetworkError::IoError(_) => "IoError",
            NetworkError::RequestError(_) => "RequestError",
            NetworkError::SerdeError(_) => "SerdeError",
        }
    }
}

impl From<ClientError> for NetworkError {
    /// A client error surfaces on the network layer unchanged.
    fn from(error: ClientError) -> (r: NetworkError)
        ensures
            r == NetworkError::ClientError(error),
    {
        NetworkError::ClientError(error)
    }
}

impl vstd::std_specs::convert::FromSpecImpl<ClientError> for NetworkError {
    open spec fn obeys_from_spec() -> bool {
        true
    }

    open spec fn from_spec(error: ClientError) -> NetworkError {
        NetworkError::ClientError(error)
    }
}

} // verus!
