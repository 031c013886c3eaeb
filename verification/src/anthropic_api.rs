//! The client and the three kinds of request that it prepares.

pub mod client;
pub mod embeddings;
pub mod messages;
pub mod text_completions;
