//! The encryption scheme as this library sees it: the key and ciphertext types
//! of `tfhe`, and names for what their ciphertexts hold.
//!
//! Nothing here is proved. The types are opaque, and each name below stands
//! for a fact about `tfhe` values that only `tfhe` can compute.
//!
//! `tfhe` computes on noisy ciphertexts: with the parameter sets it ships, an
//! operation gives a wrong result with a probability that they make
//! negligible. The contracts built on these names state the result that is
//! meant, and leave that probability aside.

use vstd::prelude::*;

verus! {

/// `tfhe::ClientKey`: the secret key, which encrypts and decrypts.
#[verifier::external_type_specification]
#[verifier::external_body]
pub struct ExClientKey(tfhe::ClientKey);

/// `tfhe::ServerKey`: the evaluation key, which computes on ciphertexts.
#[verifier::external_type_specification]
#[verifier::external_body]
pub struct ExServerKey(tfhe::ServerKey);

/// `tfhe::PublicKey`: the classical public key, which only encrypts.
#[verifier::external_type_specification]
#[verifier::external_body]
pub struct ExPublicKey(tfhe::PublicKey);

/// `tfhe::array::FheArrayBase`: an array of ciphertexts with a shape.
#[verifier::external_type_specification]
#[verifier::external_body]
#[verifier::reject_recursive_types(C)]
#[verifier::reject_recursive_types(Id)]
pub struct ExArrayBase<C, Id>(tfhe::array::FheArrayBase<C, Id>);

/// `tfhe::integer::ciphertext::BaseRadixCiphertext`: the blocks of one
/// encrypted integer, the element type of a CPU array.
#[verifier::external_type_specification]
#[verifier::external_body]
#[verifier::reject_recursive_types(Block)]
pub struct ExRadixCiphertext<Block>(tfhe::integer::ciphertext::BaseRadixCiphertext<Block>);

/// `tfhe::shortint::Ciphertext`: one block of an encrypted integer.
#[verifier::external_type_specification]
#[verifier::external_body]
pub struct ExBlock(tfhe::shortint::Ciphertext);

/// `tfhe::FheUint8Id`: the marker of 8-bit unsigned ciphertexts.
#[verifier::external_type_specification]
#[verifier::external_body]
pub struct ExFheUint8Id(tfhe::FheUint8Id);

/// One encrypted byte, a `tfhe::FheUint8`.
///
/// `tfhe::FheUint` is bounded by a trait that `tfhe` does not export, so the
/// value is held here rather than declared.
#[verifier::external_body]
pub struct Cipher8 {
    pub(crate) inner: tfhe::FheUint8,
}

/// One encrypted 16-bit integer, a `tfhe::FheUint16`.
#[verifier::external_body]
pub struct Cipher16 {
    pub(crate) inner: tfhe::FheUint16,
}

/// One encrypted 32-bit integer, a `tfhe::FheUint32`.
#[verifier::external_body]
pub struct Cipher32 {
    pub(crate) inner: tfhe::FheUint32,
}

/// Whether the parameters of `client` are a set on which `tfhe` computes
/// exactly: integers of 8, 16 and 32 bits split into whole blocks, the blocks
/// have room for carries, and the noise stays within what decryption removes.
/// The default parameters of `tfhe` are such a set.
pub uninterp spec fn exact_parameters(client: tfhe::ClientKey) -> bool;

/// Whether `server` was derived from `client`, a key with exact parameters,
/// so that what `server` computes on ciphertexts of `client` decrypts under
/// `client`.
pub uninterp spec fn evaluates_for(server: tfhe::ServerKey, client: tfhe::ClientKey) -> bool;

/// Whether `public` was derived from `client`, a key with exact parameters,
/// so that what `public` encrypts decrypts under `client`.
pub uninterp spec fn encrypts_for(public: tfhe::PublicKey, client: tfhe::ClientKey) -> bool;

/// The lengths of the dimensions of an array, as `FheArrayBase::shape` gives
/// them.
pub uninterp spec fn array_shape(cells: tfhe::CpuFheUint8Array) -> Seq<usize>;

/// The bytes that `cells` holds under `key`: `Some(s)` where `cells` holds
/// exactly `s.len()` well-formed ciphertexts of `key`, which `decrypt` returns
/// as `s`; `None` for anything else.
pub uninterp spec fn clear_bytes(cells: tfhe::CpuFheUint8Array, key: tfhe::ClientKey) -> Option<
    Seq<u8>,
>;

/// The byte that `c` holds under `key`, where `c` is a well-formed ciphertext
/// of `key`.
pub uninterp spec fn clear_u8(c: Cipher8, key: tfhe::ClientKey) -> Option<u8>;

/// The integer that `c` holds under `key`, where `c` is a well-formed
/// ciphertext of `key`.
pub uninterp spec fn clear_u16(c: Cipher16, key: tfhe::ClientKey) -> Option<u16>;

/// The integer that `c` holds under `key`, where `c` is a well-formed
/// ciphertext of `key`.
pub uninterp spec fn clear_u32(c: Cipher32, key: tfhe::ClientKey) -> Option<u32>;

} // verus!
