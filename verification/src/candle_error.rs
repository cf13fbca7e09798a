//! Errors raised while interacting with the tensor backend, the tokenizer
//! codec, and the model loading steps.
//!
//! Every variant carries its diagnostic text as a plain `String`, so the
//! whole taxonomy is visible to the verifier; the conversion out of the
//! backend's own error enum happens inside the trusted wrappers that make
//! the backend calls.

use vstd::prelude::*;

verus! {

#[verifier::external_type_specification]
#[verifier::external_body]
pub struct ExCoreError(candle_core::Error);

/// The variants a failure inside the tensor backend can be folded into.
pub open spec fn is_backend_error(e: &CandleError) -> bool {
    ||| e is CandleIoError
    ||| e is SafeTensorError
    ||| e is UnexpectedDTypeError
    ||| e is UnexpectedError
    ||| e is WrappedCandleError
    ||| e is GenericError
}

/// One flat error type for the model/tokenizer layer.
#[derive(Debug, Clone)]
pub enum CandleError {
    CandleIoError(String),
    CoreError(String),
    CudaError(String),
    DecodingError(String),
    DownloadError(String),
    EncodingError(String),
    GenericError(String),
    InitializationError(String),
    LoadModelError(String),
    SafeTensorError(String),
    TokenError(String),
    UninitializedModelError(String),
    UnexpectedDTypeError(String),
    UnexpectedError(String),
    UnsupportedDTypeError(String),
    WrappedCandleError(String),
}

impl CandleError {
    /// Relies on `candle_core::Error`'s variant set: an I/O failure, a
    /// safetensors failure, a dtype surprise, a plain message and a wrapped
    /// foreign error each keep their own tag, carrying their display text;
    /// every other backend failure becomes a generic error.
    #[verifier::external_body]
    pub fn from_core(e: candle_core::Error) -> (r: CandleError)
        ensures
            is_backend_error(&r),
    {
        match e {
            candle_core::Error::Io(err) => CandleError::CandleIoError(format!("{err}")),
            candle_core::Error::SafeTensor(s) => CandleError::SafeTensorError(format!("{s}")),
            candle_core::Error::UnexpectedDType { msg, expected, got } => {
                CandleError::UnexpectedDTypeError(format!("{msg}: expected {expected:?}, got {got:?}"))
            },
            candle_core::Error::Msg(msg) => CandleError::UnexpectedError(msg),
            candle_core::Error::Wrapped(w) => CandleError::WrappedCandleError(format!("{w}")),
            other => CandleError::GenericError(format!("Unsupported error: {other:?}")),
        }
    }

    /// The diagnostic text carried by the variant.
    pub fn message(&self) -> (r: &String)
        ensures
            r@ == self.message_view(),
    {
        match self {
            CandleError::CandleIoError(m) => m,
            CandleError::CoreError(m) => m,
            CandleError::CudaError(m) => m,
            CandleError::DecodingError(m) => m,
            CandleError::DownloadError(m) => m,
            CandleError::EncodingError(m) => m,
            CandleError::GenericError(m) => m,
            CandleError::InitializationError(m) => m,
            CandleError::LoadModelError(m) => m,
            CandleError::SafeTensorError(m) => m,
            CandleError::TokenError(m) => m,
            CandleError::UninitializedModelError(m) => m,
            CandleError::UnexpectedDTypeError(m) => m,
            CandleError::UnexpectedError(m) => m,
            CandleError::UnsupportedDTypeError(m) => m,
            CandleError::WrappedCandleError(m) => m,
        }
    }

    /// The view of the diagnostic text, independent of the variant.
    pub open spec fn message_view(&self) -> Seq<char> {
        match self {
            CandleError::CandleIoError(m) => m@,
            CandleError::CoreError(m) => m@,
            CandleError::CudaError(m) => m@,
            CandleError::DecodingError(m) => m@,
            CandleError::DownloadError(m) => m@,
            CandleError::EncodingError(m) => m@,
            CandleError::GenericError(m) => m@,
            CandleError::InitializationError(m) => m@,
            CandleError::LoadModelError(m) => m@,
            CandleError::SafeTensorError(m) => m@,
            CandleError::TokenError(m) => m@,
            CandleError::UninitializedModelError(m) => m@,
            CandleError::UnexpectedDTypeError(m) => m@,
            CandleError::UnexpectedError(m) => m@,
            CandleError::UnsupportedDTypeError(m) => m@,
            CandleError::WrappedCandleError(m) => m@,
        }
    }
}

} // verus!
