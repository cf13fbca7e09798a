//! The generation loop: encode the prompt, repeatedly predict, penalize,
//! sample and append one token, stop on the end-of-sequence token or on the
//! length bound, then assemble the output text token by token.

use vstd::prelude::*;
use vstd::string::StringExecFns;

use crate::candle_error::CandleError;
use crate::config::LlamaModelConfig;
use crate::logits::{new_logits_processor, penalize_repeats, sample_token};
use crate::model::{LlamaModel, TokenModel};
use crate::tokenizer::LlamaTokenizer;

verus! {

/// A text-generation request against a Llama model.
#[derive(Debug, Clone)]
pub struct LlamaGenerateTextRequest {
    pub prompt: String,
    pub config: LlamaModelConfig,
}

/// A text-generation response from a Llama model.
#[derive(Debug, Clone)]
pub struct LlamaGenerateTextResponse {
    pub generated_text: String,
}

/// The autoregressive decode loop.  Starting from the encoded prompt it
/// runs at most `sample_len` iterations; each one asks the model for the
/// next-token logits over the whole running sequence, applies the repeat
/// penalty, samples one token and appends it.  Sampling the end-of-sequence
/// token stops the loop at once, with that token kept as the last entry.
///
/// On success the result is the prompt followed by at most `sample_len`
/// generated tokens, the prompt itself untouched; no generated token other
/// than the final one is the end-of-sequence token; and the only way fewer
/// than `sample_len` tokens were generated is that the final one is the
/// end-of-sequence token.  With `sample_len` zero nothing is asked of the
/// model and the prompt comes back unchanged.
pub fn generate_tokens<M: TokenModel>(
    model: &mut M,
    processor: &mut candle_transformers::generation::LogitsProcessor,
    prompt: &Vec<u32>,
    sample_len: usize,
    repeat_penalty: u64,
    repeat_last_n: usize,
    eos_token_id: Option<u32>,
) -> (r: Result<Vec<u32>, CandleError>)
    ensures
        sample_len == 0 ==> (r matches Ok(out) && out@ == prompt@),
        r matches Ok(out) ==> {
            &&& prompt@.len() <= out@.len()
            &&& out@.len() <= prompt@.len() + sample_len
            &&& out@.subrange(0, prompt@.len() as int) == prompt@
            &&& forall|j: int|
                prompt@.len() <= j < out@.len() - 1 ==> eos_token_id != Some(#[trigger] out@[j])
            &&& out@.len() < prompt@.len() + sample_len ==> (prompt@.len() < out@.len()
                && eos_token_id == Some(out@.last()))
        },
{
    let ghost p = prompt@;
    let mut tokens: Vec<u32> = prompt.clone();
    let mut generated: usize = 0;
    let mut stopped: bool = false;
    while generated < sample_len && !stopped
        invariant
            generated <= sample_len,
            tokens@.len() == p.len() + generated,
            tokens@.subrange(0, p.len() as int) == p,
            forall|j: int|
                p.len() <= j < tokens@.len() - 1 ==> eos_token_id != Some(#[trigger] tokens@[j]),
            stopped ==> p.len() < tokens@.len() && eos_token_id == Some(tokens@.last()),
            !stopped && p.len() < tokens@.len() ==> eos_token_id != Some(tokens@.last()),
        decreases sample_len - generated,
    {
        let ghost before = tokens@;
        let logits = model.forward(&tokens)?;
        let logits = penalize_repeats(logits, &tokens, repeat_penalty, repeat_last_n)?;
        let next = sample_token(processor, &logits)?;
        tokens.push(next);
        generated = generated + 1;
        proof {
            assert(tokens@.subrange(0, p.len() as int) =~= before.subrange(0, p.len() as int));
        }
        match eos_token_id {
            Some(eos) => {
                if next == eos {
                    stopped = true;
                }
            },
            None => {},
        }
    }
    proof {
        if sample_len == 0 {
            assert(tokens@ =~= p);
        }
    }
    Ok(tokens)
}

/// Per-token decode leniency: a decode failure for one token does not
/// abort the response — it contributes the empty string, and every other
/// token keeps its own decoded text.
pub fn lenient_piece(outcome: Result<String, CandleError>) -> (r: String)
    ensures
        outcome matches Ok(s) ==> r == s,
        outcome is Err ==> r@ == Seq::<char>::empty(),
{
    match outcome {
        Ok(s) => s,
        Err(_) => String::new(),
    }
}

/// Decodes every token id on its own, leniently: the result holds exactly
/// one piece per token, in order, and a token the codec cannot represent
/// contributes the empty string.  Without an installed codec every piece
/// is empty.
pub fn decode_pieces(tokenizer: &LlamaTokenizer, ids: &Vec<u32>) -> (r: Vec<String>)
    ensures
        r@.len() == ids@.len(),
        !tokenizer.is_loaded() ==> forall|j: int|
            0 <= j < r@.len() ==> #[trigger] r@[j]@ == Seq::<char>::empty(),
{
    let mut pieces: Vec<String> = Vec::new();
    let mut i: usize = 0;
    while i < ids.len()
        invariant
            i <= ids@.len(),
            pieces@.len() == i,
            !tokenizer.is_loaded() ==> forall|j: int|
                0 <= j < pieces@.len() ==> #[trigger] pieces@[j]@ == Seq::<char>::empty(),
        decreases ids@.len() - i,
    {
        let single: Vec<u32> = vec![ids[i]];
        let piece = lenient_piece(tokenizer.decode(&single, false));
        pieces.push(piece);
        i = i + 1;
    }
    pieces
}

/// The views of a sequence of pieces.
pub open spec fn piece_views(pieces: Seq<String>) -> Seq<Seq<char>> {
    pieces.map_values(|s: String| s@)
}

/// The concatenation of the given piece views, in order.
pub open spec fn joined(views: Seq<Seq<char>>) -> Seq<char>
    decreases views.len(),
{
    if views.len() == 0 {
        Seq::empty()
    } else {
        joined(views.drop_last()) + views.last()
    }
}

/// A law of the lenient assembly: a piece that decoded to nothing
/// contributes nothing — the assembled text is exactly what the remaining
/// pieces, in their order, assemble to.  Together with the contracts of
/// `decode_pieces` and `assemble_output` this pins the best-effort output:
/// one failed token leaves every other token's text in place, with an
/// empty substring at its own position.
pub proof fn lemma_joined_skips_empty_piece(views: Seq<Seq<char>>, j: int)
    requires
        0 <= j < views.len(),
        views[j] == Seq::<char>::empty(),
    ensures
        joined(views) == joined(views.remove(j)),
    decreases views.len(),
{
    if j == views.len() - 1 {
        assert(views.remove(j) =~= views.drop_last());
        assert(joined(views.drop_last()) + Seq::<char>::empty() =~= joined(views.drop_last()));
    } else {
        lemma_joined_skips_empty_piece(views.drop_last(), j);
        assert(views.remove(j).drop_last() =~= views.drop_last().remove(j));
        assert(views.remove(j).last() == views.last());
    }
}

/// Concatenates the decoded pieces, in order and with nothing in between:
/// the best-effort output text.
pub fn assemble_output(pieces: &Vec<String>) -> (r: String)
    ensures
        r@ == joined(piece_views(pieces@)),
{
    let mut text = String::new();
    let mut i: usize = 0;
    while i < pieces.len()
        invariant
            i <= pieces@.len(),
            text@ == joined(piece_views(pieces@.subrange(0, i as int))),
        decreases pieces@.len() - i,
    {
        text.append(pieces[i].as_str());
        i = i + 1;
        proof {
            let done = piece_views(pieces@.subrange(0, i as int));
            assert(done.drop_last() =~= piece_views(pieces@.subrange(0, i - 1)));
            assert(done.last() == pieces@[i - 1]@);
        }
    }
    proof {
        assert(pieces@.subrange(0, pieces@.len() as int) =~= pieces@);
    }
    text
}

impl<M: TokenModel> LlamaModel<M> {
    /// One whole generation request: refuse it while the model or the
    /// tokenizer is uninitialized, encode the prompt, run the decode loop
    /// under this handle's configuration, and decode the entire accumulated
    /// sequence — prompt included — token by token into the response text.
    ///
    /// The handle's configuration and tokenizer come through unchanged, and
    /// the weights stay installed.
    pub fn generate_text(&mut self, request: &LlamaGenerateTextRequest) -> (r: Result<
        LlamaGenerateTextResponse,
        CandleError,
    >)
        ensures
            old(self).model is None || !old(self).tokenizer.is_loaded() ==> (r matches Err(e)
                && e is UninitializedModelError),
            r is Ok ==> old(self).model is Some && old(self).tokenizer.is_loaded(),
            final(self).config == old(self).config,
            final(self).tokenizer == old(self).tokenizer,
            final(self).model is Some <==> old(self).model is Some,
    {
        if self.model.is_none() {
            return Err(CandleError::UninitializedModelError(
                String::from_str("Model is not initialized"),
            ));
        }
        if self.tokenizer.tokenizer.is_none() {
            return Err(CandleError::UninitializedModelError(
                String::from_str("Tokenizer is not initialized"),
            ));
        }
        let prompt_ids = self.tokenizer.encode(request.prompt.as_str(), true)?;
        let eos_token_id = self.tokenizer.token_id_for("<|endoftext|>");
        let mut processor = new_logits_processor(
            self.config.seed,
            self.config.temperature,
            self.config.top_p,
        );
        let sample_len = self.config.sample_len;
        let repeat_penalty = self.config.repeat_penalty;
        let repeat_last_n = self.config.repeat_last_n;
        let model = self.model.as_mut().unwrap();
        let tokens = generate_tokens(
            model,
            &mut processor,
            &prompt_ids,
            sample_len,
            repeat_penalty,
            repeat_last_n,
            eos_token_id,
        )?;
        let pieces = decode_pieces(&self.tokenizer, &tokens);
        let generated_text = assemble_output(&pieces);
        Ok(LlamaGenerateTextResponse { generated_text })
    }
}

} // verus!
