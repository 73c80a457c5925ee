//! Tokenization for a host runtime: options folded into settings, resources that
//! wrap the `tokenizers` engine, and contracts on what each entry point hands back.

pub mod added_token;
pub mod decode_stream;
pub mod decoders;
pub mod encoding;
pub mod error;
pub mod model;
pub mod models;
pub mod normalizers;
pub mod post_processors;
pub mod pre_tokenizers;
pub mod tokenizer;
pub mod trainers;
pub mod util;

pub use error::ExTokenizersError;
