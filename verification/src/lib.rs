//! Loading of DeepSeek-V4 checkpoints, a latent-attention model with a mixture
//! of experts.
//!
//! [`parse`] turns a `config.json` into a model configuration. [`weight_loader`]
//! decides which tensors of a checkpoint are loaded, and what is made of them;
//! it holds a conversation with a runtime, which does the work, in the terms of
//! [`request`]. What is asked in which order is stated in [`transcript`], what
//! every such conversation comes to in [`provenance`], and what callers can rely
//! on in [`interface`].
pub mod assemble;
pub mod attention;
pub mod config;
pub mod context;
pub mod decimal;
pub mod interface;
pub mod json;
pub mod load_layers;
pub mod parse;
pub mod provenance;
pub mod request;
pub mod tensor;
pub mod transcript;
pub mod weight_loader;
pub mod weights;
