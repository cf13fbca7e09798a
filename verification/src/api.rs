//! The externally visible request/response surface of the gateway, and the
//! serializable mirror of the tensor backend's numeric precision tag.

use vstd::prelude::*;

verus! {

/// Per-model settings as a caller of the gateway hands them over.
///
/// `temperature` is a fixed-point value in millionths, so 1_000_000 stands
/// for a temperature of one.
#[derive(Debug, Clone)]
pub struct ModelConfig {
    pub model_name: String,
    pub temperature: u64,
    pub max_tokens: u32,
}

/// A single text-generation request.
#[derive(Debug, Clone)]
pub struct GenerateTextRequest {
    pub prompt: String,
    pub config: ModelConfig,
}

/// A single text-generation response.
#[derive(Debug, Clone)]
pub struct GenerateTextResponse {
    pub generated_text: String,
}

/// The numeric precisions of model weights that the gateway recognizes.
/// The tensor backend's own precision tag is wider; the conversion from it
/// is partial and lives beside the backend calls.
#[derive(Debug, Clone, Copy, PartialEq, Eq, Structural)]
pub enum SerializableDType {
    F16,
    BF16,
    F32,
}

} // verus!
