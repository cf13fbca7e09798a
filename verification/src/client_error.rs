//! Generic client-level errors, shared across concrete model clients, and
//! the conversion that folds the model layer's `CandleError` taxonomy into
//! it.

use vstd::prelude::*;
use vstd::string::StringExecFns;

use crate::candle_error::CandleError;
use crate::gateway_error::GatewayError;

verus! {

#[derive(Debug, Clone)]
pub enum ClientError {
    AuthenticationError(String),
    GenericError(String),
    RateLimitError(String),
    SpecificError(String),
}

/// The text that announces each `CandleError` variant when it is folded
/// into a `ClientError` message.
pub open spec fn candle_variant_prefix(e: &CandleError) -> Seq<char> {
    match e {
        CandleError::CandleIoError(_) => "Candle IO error: "@,
        CandleError::CoreError(_) => "Candle core error: "@,
        CandleError::CudaError(_) => "Cuda error: "@,
        CandleError::DecodingError(_) => "Decoding error: "@,
        CandleError::DownloadError(_) => "Download error: "@,
        CandleError::EncodingError(_) => "Encoding error: "@,
        CandleError::GenericError(_) => "Generic client error: "@,
        CandleError::InitializationError(_) => "Initialization error: "@,
        CandleError::LoadModelError(_) => "Error loading model: "@,
        CandleError::SafeTensorError(_) => "SafeTensor error: "@,
        CandleError::TokenError(_) => "Token error: "@,
        CandleError::UninitializedModelError(_) => "Uninitialized model error: "@,
        CandleError::UnexpectedDTypeError(_) => "Unexpected DType: "@,
        CandleError::UnexpectedError(_) => "Unexpected error: "@,
        CandleError::UnsupportedDTypeError(_) => "Unsupported DType: "@,
        CandleError::WrappedCandleError(_) => "Wrapped Candle error: "@,
    }
}

impl ClientError {
    /// Folds a `CandleError` into a `ClientError`.  A generic model error
    /// stays generic; every other variant becomes a client-specific error.
    /// The message is the announcing prefix of the variant followed by the
    /// diagnostic text it carried.
    pub fn from_candle(e: CandleError) -> (r: ClientError)
        ensures
            e is GenericError ==> (r matches ClientError::GenericError(m)
                && m@ == candle_variant_prefix(&e) + e.message_view()),
            !(e is GenericError) ==> (r matches ClientError::SpecificError(m)
                && m@ == candle_variant_prefix(&e) + e.message_view()),
    {
        match e {
            CandleError::CandleIoError(m) => ClientError::SpecificError(
                String::from_str("Candle IO error: ").concat(m.as_str()),
            ),
            CandleError::CoreError(m) => ClientError::SpecificError(
                String::from_str("Candle core error: ").concat(m.as_str()),
            ),
            CandleError::CudaError(m) => ClientError::SpecificError(
                String::from_str("Cuda error: ").concat(m.as_str()),
            ),
            CandleError::DecodingError(m) => ClientError::SpecificError(
                String::from_str("Decoding error: ").concat(m.as_str()),
            ),
            CandleError::DownloadError(m) => ClientError::SpecificError(
                String::from_str("Download error: ").concat(m.as_str()),
            ),
            CandleError::EncodingError(m) => ClientError::SpecificError(
                String::from_str("Encoding error: ").concat(m.as_str()),
            ),
            CandleError::GenericError(m) => ClientError::GenericError(
                String::from_str("Generic client error: ").concat(m.as_str()),
            ),
            CandleError::InitializationError(m) => ClientError::SpecificError(
                String::from_str("Initialization error: ").concat(m.as_str()),
            ),
            CandleError::LoadModelError(m) => ClientError::SpecificError(
                String::from_str("Error loading model: ").concat(m.as_str()),
            ),
            CandleError::SafeTensorError(m) => ClientError::SpecificError(
                String::from_str("SafeTensor error: ").concat(m.as_str()),
            ),
            CandleError::TokenError(m) => ClientError::SpecificError(
                String::from_str("Token error: ").concat(m.as_str()),
            ),
            CandleError::UninitializedModelError(m) => ClientError::SpecificError(
                String::from_str("Uninitialized model error: ").concat(m.as_str()),
            ),
            CandleError::UnexpectedDTypeError(m) => ClientError::SpecificError(
                String::from_str("Unexpected DType: ").concat(m.as_str()),
            ),
            CandleError::UnexpectedError(m) => ClientError::SpecificError(
                String::from_str("Unexpected error: ").concat(m.as_str()),
            ),
            CandleError::UnsupportedDTypeError(m) => ClientError::SpecificError(
                String::from_str("Unsupported DType: ").concat(m.as_str()),
            ),
            CandleError::WrappedCandleError(m) => ClientError::SpecificError(
                String::from_str("Wrapped Candle error: ").concat(m.as_str()),
            ),
        }
    }

    /// The message carried by the variant.
    pub fn message(&self) -> (r: &String)
        ensures
            r@ == self.message_view(),
    {
        match self {
            ClientError::AuthenticationError(m) => m,
            ClientError::GenericError(m) => m,
            ClientError::RateLimitError(m) => m,
            ClientError::SpecificError(m) => m,
        }
    }

    /// The view of the message, independent of the variant.
    pub open spec fn message_view(&self) -> Seq<char> {
        match self {
            ClientError::AuthenticationError(m) => m@,
            ClientError::GenericError(m) => m@,
            ClientError::RateLimitError(m) => m@,
            ClientError::SpecificError(m) => m@,
        }
    }
}

impl From<ClientError> for GatewayError {
    /// A client error surfaces through the gateway unchanged, tagged as a
    /// client failure.
    fn from(error: ClientError) -> (r: GatewayError)
        ensures
            r == GatewayError::ClientError(error),
    {
        GatewayError::ClientError(error)
    }
}

impl vstd::std_specs::convert::FromSpecImpl<ClientError> for GatewayError {
    open spec fn obeys_from_spec() -> bool {
        true
    }

    open spec fn from_spec(error: ClientError) -> GatewayError {
        GatewayError::ClientError(error)
    }
}

} // verus!
