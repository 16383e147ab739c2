pub mod adapter;
pub mod anthropic;
pub mod framing;
pub mod image;
pub mod llm;
pub mod openai;
pub mod stream;
pub mod wire;
