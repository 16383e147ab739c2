pub mod codec;
pub mod crypto;
