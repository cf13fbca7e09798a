//! The tokenizer adapter: a lazily-initialized text/token-id codec.
//!
//! The codec itself comes from the `tokenizers` crate and is opaque to the
//! verifier; the adapter owns the initialization state machine, the
//! uninitialized-use errors, and the shape of every outcome.  Downloading
//! and parsing the codec file is I/O and happens outside the library; the
//! parsed codec is handed in through `install_codec`.

use vstd::prelude::*;
use vstd::string::StringExecFns;

use crate::candle_error::CandleError;
use crate::config::LlamaModelConfig;

verus! {

#[verifier::external_type_specification]
#[verifier::external_body]
pub struct ExTokenizer(tokenizers::Tokenizer);

/// Relies on `tokenizers::Tokenizer::encode`: turns text into the codec's
/// token ids, honouring `add_special_tokens`.  A rejection by the codec is
/// reported as an `EncodingError` with a fixed message.
#[verifier::external_body]
fn codec_encode(codec: &tokenizers::Tokenizer, text: &str, add_special_tokens: bool) -> (r:
    Result<Vec<u32>, CandleError>)
    ensures
        r matches Err(e) ==> (e matches CandleError::EncodingError(m)
            && m@ == "Failed to encode text"@),
{
    match codec.encode(text, add_special_tokens) {
        Ok(encoding) => Ok(encoding.get_ids().to_vec()),
        Err(_) => Err(CandleError::EncodingError("Failed to encode text".to_string())),
    }
}

/// Relies on `tokenizers::Tokenizer::decode`: turns token ids back into
/// text, dropping special tokens when asked to.  A malformed id sequence is
/// reported as a `DecodingError` with a fixed message.
#[verifier::external_body]
fn codec_decode(codec: &tokenizers::Tokenizer, ids: &Vec<u32>, skip_special_tokens: bool) -> (r:
    Result<String, CandleError>)
    ensures
        r matches Err(e) ==> (e matches CandleError::DecodingError(m)
            && m@ == "Failed to decode tokens"@),
{
    match codec.decode(ids.as_slice(), skip_special_tokens) {
        Ok(text) => Ok(text),
        Err(_) => Err(CandleError::DecodingError("Failed to decode tokens".to_string())),
    }
}

/// Relies on `tokenizers::Tokenizer::token_to_id`: looks a symbol up in the
/// codec's vocabulary.
#[verifier::external_body]
fn codec_token_to_id(codec: &tokenizers::Tokenizer, symbol: &str) -> (r: Option<u32>) {
    codec.token_to_id(symbol)
}

/// The text/token-id codec of a Llama model, together with the model
/// settings it was requested for.  `tokenizer` stays `None` until a parsed
/// codec is installed.
pub struct LlamaTokenizer {
    pub tokenizer: Option<tokenizers::Tokenizer>,
    pub model_config: LlamaModelConfig,
}

impl LlamaTokenizer {
    /// Whether a codec has been installed.
    pub open spec fn is_loaded(&self) -> bool {
        self.tokenizer is Some
    }

    /// A fresh, not yet loaded adapter.
    pub fn new(model_config: LlamaModelConfig) -> (r: Self)
        ensures
            !r.is_loaded(),
            r.model_config == model_config,
    {
        LlamaTokenizer { tokenizer: None, model_config }
    }

    /// Installs a parsed codec: the verified tail of the one-shot loading
    /// step.  Loading is idempotent on success in the strict sense that a
    /// second install after a successful one is refused and changes
    /// nothing.
    pub fn install_codec(&mut self, codec: tokenizers::Tokenizer) -> (r: Result<(), CandleError>)
        ensures
            old(self).is_loaded() ==> (r matches Err(e)
                && e matches CandleError::InitializationError(m)
                && m@ == "Tokenizer is already initialized"@
                && *final(self) == *old(self)),
            !old(self).is_loaded() ==> (r is Ok
                && final(self).tokenizer == Some(codec)
                && final(self).model_config == old(self).model_config),
    {
        if self.tokenizer.is_some() {
            Err(CandleError::InitializationError(
                String::from_str("Tokenizer is already initialized"),
            ))
        } else {
            self.tokenizer = Some(codec);
            Ok(())
        }
    }

    /// Encodes text into token ids.  Before a codec is installed every call
    /// fails with `UninitializedModelError`; afterwards the outcome is the
    /// codec's own: its token ids, or `EncodingError` when it rejects the
    /// input.
    pub fn encode(&self, text: &str, add_special_tokens: bool) -> (r: Result<Vec<u32>, CandleError>)
        ensures
            !self.is_loaded() ==> (r matches Err(e)
                && e matches CandleError::UninitializedModelError(m)
                && m@ == "Tokenizer is not initialized"@),
            self.is_loaded() ==> (r is Ok || (r matches Err(e)
                && e matches CandleError::EncodingError(m)
                && m@ == "Failed to encode text"@)),
    {
        match self.tokenizer.as_ref() {
            None => Err(CandleError::UninitializedModelError(
                String::from_str("Tokenizer is not initialized"),
            )),
            Some(codec) => codec_encode(codec, text, add_special_tokens),
        }
    }

    /// Decodes token ids into text.  Before a codec is installed every call
    /// fails with `UninitializedModelError`; afterwards the outcome is the
    /// codec's own: its text, or `DecodingError` on a malformed sequence.
    pub fn decode(&self, ids: &Vec<u32>, skip_special_tokens: bool) -> (r: Result<
        String,
        CandleError,
    >)
        ensures
            !self.is_loaded() ==> (r matches Err(e)
                && e matches CandleError::UninitializedModelError(m)
                && m@ == "Tokenizer is not initialized"@),
            self.is_loaded() ==> (r is Ok || (r matches Err(e)
                && e matches CandleError::DecodingError(m)
                && m@ == "Failed to decode tokens"@)),
    {
        match self.tokenizer.as_ref() {
            None => Err(CandleError::UninitializedModelError(
                String::from_str("Tokenizer is not initialized"),
            )),
            Some(codec) => codec_decode(codec, ids, skip_special_tokens),
        }
    }

    /// Looks up the id of a vocabulary symbol, used to resolve the
    /// end-of-sequence marker.  Without an installed codec nothing can be
    /// resolved and the lookup answers `None`.
    pub fn token_id_for(&self, symbol: &str) -> (r: Option<u32>)
        ensures
            !self.is_loaded() ==> r is None,
    {
        match self.tokenizer.as_ref() {
            None => None,
            Some(codec) => codec_token_to_id(codec, symbol),
        }
    }
}

} // verus!
