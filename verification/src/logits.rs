//! The logits policy and the sampler.
//!
//! Two transforms run over the raw logits before sampling: the repeat
//! penalty (skipped entirely when the penalty is exactly one) and the
//! temperature / top-p step that lives inside the sampler.  The numeric
//! work happens in the `candle` crates on an opaque tensor; the window
//! arithmetic, the disabled-penalty shortcut and the shape of every
//! outcome are verified here.

use vstd::prelude::*;

use crate::candle_error::{is_backend_error, CandleError};
use crate::config::MICROS_PER_ONE;

verus! {

#[verifier::external_type_specification]
#[verifier::external_body]
pub struct ExLogitsProcessor(candle_transformers::generation::LogitsProcessor);

/// Relies on `candle_transformers::generation::LogitsProcessor::new`: a
/// seeded sampler that draws greedily (argmax) when the temperature is
/// `None` — a set temperature below 1e-7 counts as none — and otherwise
/// softmax-samples at the given temperature with optional nucleus (top-p)
/// truncation.  The fixed-point arguments denote the fraction
/// value/1_000_000.
#[verifier::external_body]
pub(crate) fn new_logits_processor(seed: u64, temperature: Option<u64>, top_p: Option<u64>) -> (r:
    candle_transformers::generation::LogitsProcessor) {
    let temperature = temperature.map(|v| format!("{}e-6", v).parse().unwrap());
    let top_p = top_p.map(|v| format!("{}e-6", v).parse().unwrap());
    candle_transformers::generation::LogitsProcessor::new(seed, temperature, top_p)
}

/// Relies on `candle_transformers::generation::LogitsProcessor::sample`:
/// one draw over the logits under the processor's sampling policy,
/// advancing its seeded generator state.  An empty logits tensor is
/// refused with an error rather than handed to the backend, whose greedy
/// argmax aborts on it.
#[verifier::external_body]
pub(crate) fn sample_token(
    processor: &mut candle_transformers::generation::LogitsProcessor,
    logits: &candle_core::Tensor,
) -> (r: Result<u32, CandleError>)
    ensures
        r matches Err(e) ==> is_backend_error(&e),
{
    if logits.elem_count() == 0 {
        return Err(CandleError::GenericError(
            "Cannot sample from an empty logits tensor".to_string(),
        ));
    }
    processor.sample(logits).map_err(CandleError::from_core)
}

/// Relies on `candle_transformers::utils::apply_repeat_penalty`: a fresh
/// tensor in which the logit of every token id occurring in
/// `tokens[start..]` is divided by the penalty when non-negative and
/// multiplied by it when negative, while every other entry is carried over
/// unchanged.  The fixed-point penalty denotes the fraction
/// penalty/1_000_000.
#[verifier::external_body]
fn rescale_repeats(
    logits: &candle_core::Tensor,
    penalty: u64,
    tokens: &Vec<u32>,
    start: usize,
) -> (r: Result<candle_core::Tensor, CandleError>)
    requires
        start <= tokens@.len(),
    ensures
        r matches Err(e) ==> is_backend_error(&e),
{
    let penalty = format!("{}e-6", penalty).parse().unwrap();
    candle_transformers::utils::apply_repeat_penalty(logits, penalty, &tokens[start..])
        .map_err(CandleError::from_core)
}

/// Where the repeat-penalty window begins: the last `repeat_last_n` tokens
/// of a sequence of length `len`, clamping to the whole sequence — never
/// underflowing — when the sequence is shorter than the window.
pub fn penalty_window_start(len: usize, repeat_last_n: usize) -> (r: usize)
    ensures
        repeat_last_n <= len ==> r == len - repeat_last_n,
        len < repeat_last_n ==> r == 0,
        r <= len,
{
    if repeat_last_n <= len {
        len - repeat_last_n
    } else {
        0
    }
}

/// The repeat-penalty transform of the logits policy.  With the penalty at
/// exactly one the transform is disabled and the very tensor that came in
/// goes back out, bit-identical; otherwise the logits of the tokens in the
/// trailing window are rescaled by the backend.
pub fn penalize_repeats(
    logits: candle_core::Tensor,
    tokens: &Vec<u32>,
    repeat_penalty: u64,
    repeat_last_n: usize,
) -> (r: Result<candle_core::Tensor, CandleError>)
    ensures
        repeat_penalty == MICROS_PER_ONE ==> r == Ok::<candle_core::Tensor, CandleError>(logits),
        r matches Err(e) ==> is_backend_error(&e),
{
    if repeat_penalty == MICROS_PER_ONE {
        Ok(logits)
    } else {
        let start = penalty_window_start(tokens.len(), repeat_last_n);
        rescale_repeats(&logits, repeat_penalty, tokens, start)
    }
}

} // verus!
