//! Hamming distance between byte vectors, evaluated on ciphertexts.
//!
//! Two descriptors are encrypted under one key set, their bitwise distance is
//! computed homomorphically, and only the final scalar is decrypted and held
//! against a threshold. Every contract is stated over the clear bytes that the
//! ciphertexts stand for.

pub mod bits;
pub mod cipher;
pub mod classify;
pub mod corpus;
pub mod distance;
pub mod evaluation;
pub mod header;
pub mod keys;
pub mod names;
pub mod scheme;
pub mod subject;
