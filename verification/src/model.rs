//! The model handle: loaded transformer weights exposed through a single
//! capability — given the running token sequence, produce the next-token
//! logits.
//!
//! The capability is a trait, so any concrete tensor backend can satisfy
//! it; the backend shipped here drives a Llama network from the `candle`
//! crates.  The logits stay an opaque tensor: the verified code moves them
//! between the policy steps without looking inside.

use vstd::prelude::*;
use vstd::string::StringExecFns;

use crate::candle_error::CandleError;
use crate::config::LlamaModelConfig;
use crate::tokenizer::LlamaTokenizer;

verus! {

#[verifier::external_type_specification]
#[verifier::external_body]
pub struct ExTensor(candle_core::Tensor);

#[verifier::external_type_specification]
#[verifier::external_body]
pub struct ExDevice(candle_core::Device);

#[verifier::external_type_specification]
#[verifier::external_body]
pub struct ExLlama(candle_transformers::models::llama::Llama);

#[verifier::external_type_specification]
#[verifier::external_body]
pub struct ExLlamaCache(candle_transformers::models::llama::Cache);

/// The forward capability: one next-token prediction over the given
/// context window, as a vector of unnormalized log-probabilities over the
/// vocabulary.  `&mut self` leaves room for an internal key/value cache.
pub trait TokenModel {
    fn forward(&mut self, context: &Vec<u32>) -> Result<candle_core::Tensor, CandleError>;
}

/// Loaded Llama weights together with the layer cache and the device the
/// input tensors are built on.
pub struct CandleLlama {
    pub model: candle_transformers::models::llama::Llama,
    pub cache: candle_transformers::models::llama::Cache,
    pub device: candle_core::Device,
}

/// Relies on `candle_transformers::models::llama::Llama::forward`: the
/// context window goes in as a rank-one tensor lifted to a batch of one,
/// and the logits for the next token come back out.  An empty context is
/// refused with an error rather than handed to the backend, whose
/// sequence-length arithmetic aborts on it.
#[verifier::external_body]
fn llama_forward(
    model: &candle_transformers::models::llama::Llama,
    cache: &mut candle_transformers::models::llama::Cache,
    device: &candle_core::Device,
    context: &Vec<u32>,
) -> (r: Result<candle_core::Tensor, CandleError>) {
    if context.is_empty() {
        return Err(CandleError::GenericError(
            "Cannot run the model on an empty context window".to_string(),
        ));
    }
    candle_core::Tensor::new(context.as_slice(), device)
        .and_then(|input| input.unsqueeze(0))
        .and_then(|input| model.forward(&input, 0, cache))
        .and_then(|logits| logits.squeeze(0))
        .map_err(CandleError::from_core)
}

impl TokenModel for CandleLlama {
    fn forward(&mut self, context: &Vec<u32>) -> (r: Result<candle_core::Tensor, CandleError>) {
        llama_forward(&self.model, &mut self.cache, &self.device, context)
    }
}

/// A Llama model instance: the (possibly not yet loaded) weights handle,
/// the per-request configuration, and the tokenizer adapter.
pub struct LlamaModel<M> {
    pub model: Option<M>,
    pub config: LlamaModelConfig,
    pub tokenizer: LlamaTokenizer,
}

impl<M: TokenModel> LlamaModel<M> {
    /// A handle whose weights are not loaded yet.
    pub fn new(config: LlamaModelConfig, tokenizer: LlamaTokenizer) -> (r: Self)
        ensures
            r.model is None,
            r.config == config,
            r.tokenizer == tokenizer,
    {
        LlamaModel { model: None, config, tokenizer }
    }

    /// Installs loaded weights: the verified tail of model initialization.
    /// Downloading and parsing the weight file is I/O and happens outside
    /// the library.
    pub fn install_model(&mut self, model: M)
        ensures
            final(self).model == Some(model),
            final(self).config == old(self).config,
            final(self).tokenizer == old(self).tokenizer,
    {
        self.model = Some(model);
    }

    /// The installed codec, or `UninitializedModelError` before the
    /// tokenizer has been loaded.
    pub fn get_tokenizer(&self) -> (r: Result<&tokenizers::Tokenizer, CandleError>)
        ensures
            self.tokenizer.is_loaded() <==> r is Ok,
            r matches Err(e) ==> (e matches CandleError::UninitializedModelError(m)
                && m@ == "Tokenizer is not initialized"@),
    {
        match self.tokenizer.tokenizer.as_ref() {
            Some(codec) => Ok(codec),
            None => Err(CandleError::UninitializedModelError(
                String::from_str("Tokenizer is not initialized"),
            )),
        }
    }
}

} // verus!
