//! Immutable per-request generation settings.
//!
//! The sampling knobs that a caller states as decimal fractions are held
//! here as fixed-point values in millionths (`MICROS_PER_ONE` stands for
//! exactly one), so the whole configuration is made of plain values the
//! verifier can reason about.  The trusted wrappers that reach the sampler
//! turn a fixed-point value into the fraction it denotes.

use vstd::prelude::*;

use crate::api::SerializableDType;

verus! {

/// The fixed-point value that stands for exactly one.
pub const MICROS_PER_ONE: u64 = 1_000_000;

/// Configuration of one generation request against a Llama model.
///
/// * `temperature`: `None` means greedy argmax sampling; `Some(t)` scales
///   the logits by the fraction `t` denotes (millionths).
/// * `top_p`: `None` means no nucleus truncation; `Some(p)` truncates to the
///   smallest highest-probability prefix of cumulative mass `p` (millionths).
/// * `repeat_penalty`: `MICROS_PER_ONE` disables the repeat penalty.
/// * `repeat_last_n`: how many of the most recent tokens the repeat penalty
///   looks at.
#[derive(Debug, Clone)]
pub struct LlamaModelConfig {
    pub cpu: bool,
    pub temperature: Option<u64>,
    pub top_p: Option<u64>,
    pub seed: u64,
    pub sample_len: usize,
    pub dtype: Option<SerializableDType>,
    pub model_id: Option<String>,
    pub revision: Option<String>,
    pub use_flash_attn: bool,
    pub repeat_penalty: u64,
    pub repeat_last_n: usize,
}

impl Default for LlamaModelConfig {
    /// The stock request: temperature one, nucleus cutoff 0.9, a fixed seed,
    /// at most 100 generated tokens, half-precision weights, and the repeat
    /// penalty disabled over a 64-token window.
    fn default() -> (r: Self)
        ensures
            r.cpu == false,
            r.temperature == Some(MICROS_PER_ONE),
            r.top_p == Some(900_000u64),
            r.seed == 299792458u64,
            r.sample_len == 100usize,
            r.dtype == Some(SerializableDType::F16),
            r.model_id is None,
            r.revision is None,
            r.use_flash_attn == false,
            r.repeat_penalty == MICROS_PER_ONE,
            r.repeat_last_n == 64usize,
    {
        LlamaModelConfig {
            cpu: false,
            temperature: Some(MICROS_PER_ONE),
            top_p: Some(900_000),
            seed: 299792458,
            sample_len: 100,
            dtype: Some(SerializableDType::F16),
            model_id: None,
            revision: None,
            use_flash_attn: false,
            repeat_penalty: MICROS_PER_ONE,
            repeat_last_n: 64,
        }
    }
}

} // verus!
