//! Client-side encryption library for storing files in untrusted object
//! storage: a fixed binary envelope format, a key-derivation hierarchy that
//! expands one 32-byte master secret into per-file keys, authenticated
//! encryption and decryption of envelopes, and a content hasher, together
//! with the pure decision logic of the surrounding service and command-line
//! tools.

pub mod api_error;
pub mod api_models;
pub mod auth;
pub mod cache_plan;
pub mod cipher;
pub mod codec;
pub mod config;
pub mod decrypt;
pub mod encrypt;
pub mod error;
pub mod hash;
pub mod key_derivation;
pub mod master_key;
pub mod paths;
pub mod sizes;
pub mod text;
pub mod urls;
