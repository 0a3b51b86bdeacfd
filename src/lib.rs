pub mod text;
pub mod config;
pub mod encoding;
pub mod error;
pub mod jws;
pub mod nonce;
pub mod directory;
pub mod account;
pub mod order;
pub mod gen_config;
pub mod apply_acme_cert;
