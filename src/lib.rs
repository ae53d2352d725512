//! Format detection, decoder and encoder dispatch, and the memory budget of decoding.
pub mod bytes;
pub mod error;
pub mod format;
pub mod signature;
pub mod limits;
pub mod decode;
pub mod encode;
pub mod laws;
