//! Provider adapters.

pub mod openai;
