//! Errors raised inside the gateway itself, above any particular client.

use vstd::prelude::*;

use crate::client_error::ClientError;
use crate::network_error::NetworkError;

verus! {

#[derive(Debug, Clone)]
pub enum GatewayError {
    GatewayError(String),
    ClientError(ClientError),
}

impl From<GatewayError> for ClientError {
    /// Unwraps a gateway error for a caller that speaks in client errors: a
    /// wrapped client error comes back out as it went in, and a gateway-own
    /// message becomes a generic client error.
    fn from(error: GatewayError) -> (r: ClientError)
        ensures
            error matches GatewayError::ClientError(c) ==> r == c,
            error matches GatewayError::GatewayError(m) ==> r == ClientError::GenericError(m),
    {
        match error {
            GatewayError::ClientError(client_error) => client_error,
            GatewayError::GatewayError(msg) => ClientError::GenericError(msg),
        }
    }
}

impl vstd::std_specs::convert::FromSpecImpl<GatewayError> for ClientError {
    open spec fn obeys_from_spec() -> bool {
        true
    }

    open spec fn from_spec(error: GatewayError) -> ClientError {
        match error {
            GatewayError::ClientError(client_error) => client_error,
            GatewayError::GatewayError(msg) => ClientError::GenericError(msg),
        }
    }
}

impl From<GatewayError> for NetworkError {
    /// Lifts a gateway error onto the network layer: a wrapped client error
    /// keeps its tag, and a gateway-own message becomes a custom error.
    fn from(error: GatewayError) -> (r: NetworkError)
        ensures
            error matches GatewayError::ClientError(c) ==> r == NetworkError::ClientError(c),
            error matches GatewayError::GatewayError(m) ==> r == NetworkError::CustomError(m),
    {
        match error {
            GatewayError::ClientError(client_error) => NetworkError::ClientError(client_error),
            GatewayError::GatewayError(msg) => NetworkError::CustomError(msg),
        }
    }
}

impl vstd::std_specs::convert::FromSpecImpl<GatewayError> for NetworkError {
    open spec fn obeys_from_spec() -> bool {
        true
    }

    open spec fn from_spec(error: GatewayError) -> NetworkError {
        match error {
            GatewayError::ClientError(client_error) => NetworkError::ClientError(client_error),
            GatewayError::GatewayError(msg) => NetworkError::CustomError(msg),
        }
    }
}

} // verus!
