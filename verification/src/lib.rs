//! Verified core of a text-generation gateway built around an autoregressive
//! transformer language model.
//!
//! The library owns the generation pipeline: prompt encoding, the
//! token-by-token decode loop with logits post-processing (repeat penalty)
//! and seeded sampling (temperature / top-p), stopping conditions, and
//! best-effort detokenization.  The tensor engine, the tokenizer codec and
//! the sampler live in outside crates and are reached through a small set of
//! trusted wrappers; everything around those calls is verified.

pub mod api;
pub mod candle_error;
pub mod config;
pub mod client_error;
pub mod gateway_error;
pub mod generator;
pub mod logits;
pub mod model;
pub mod network_error;
pub mod northbound_bus;
pub mod southbound_bus;
pub mod tokenizer;
