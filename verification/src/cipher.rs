//! Ciphertexts: an encrypted byte vector and an encrypted 16-bit scalar,
//! each with the clear value it stands for as its model.

use vstd::prelude::*;
use tfhe::prelude::{CastInto, FheDecrypt, FheEncrypt};
use crate::bits::{bit_count, lemma_bit_count_bound, xor_bytes};
use crate::keys::{EncryptionKey, Evaluator, PrivateKey};
use crate::scheme::{
    array_shape, clear_bytes, clear_u16, clear_u32, clear_u8, encrypts_for, evaluates_for,
    exact_parameters, Cipher16, Cipher32, Cipher8,
};

verus! {

/// An encrypted byte vector.
pub struct EncryptedVector {
    cells: tfhe::CpuFheUint8Array,
    owner: Ghost<tfhe::ClientKey>,
}

/// An encrypted 16-bit scalar: the accumulator of a distance.
pub struct EncryptedScalar {
    value: Cipher16,
    owner: Ghost<tfhe::ClientKey>,
}

/// What `cells` must be under `key` to stand for a byte vector: ciphertexts
/// of `key`, in one dimension that is as long as the bytes they hold.
spec fn holds_vector(cells: tfhe::CpuFheUint8Array, key: tfhe::ClientKey) -> bool {
    &&& clear_bytes(cells, key) is Some
    &&& array_shape(cells).len() == 1
    &&& array_shape(cells)[0] == clear_bytes(cells, key)->0.len()
}

impl EncryptedVector {
    #[verifier::type_invariant]
    spec fn well_formed(&self) -> bool {
        holds_vector(self.cells, self.owner@)
    }

    /// The private key under which this vector was encrypted.
    pub closed spec fn owner(&self) -> tfhe::ClientKey {
        self.owner@
    }

    /// The bytes that this vector decrypts to under its owner.
    pub closed spec fn plain(&self) -> Seq<u8> {
        clear_bytes(self.cells, self.owner@)->0
    }

    /// Encrypts `bytes` under the private key.
    pub fn encrypt(bytes: &[u8], key: &PrivateKey) -> (v: EncryptedVector)
        ensures
            v.owner() == key.owner(),
            v.plain() == bytes@,
    {
        let secret = key.secret();
        let cells = encrypt_cells(bytes, secret);
        EncryptedVector { cells, owner: Ghost(*secret) }
    }

    /// Decrypts the vector with the private key it belongs to.
    pub fn decrypt(&self, key: &PrivateKey) -> (bytes: Vec<u8>)
        requires
            self.owner() == key.owner(),
        ensures
            bytes@ == self.plain(),
    {
        proof {
            use_type_invariant(self);
        }
        decrypt_cells(&self.cells, key.secret())
    }

    /// The number of encrypted bytes.
    pub fn len(&self) -> (n: usize)
        ensures
            n == self.plain().len(),
    {
        proof {
            use_type_invariant(self);
        }
        let shape = shape_of(&self.cells);
        shape[0]
    }

    /// The elementwise XOR of two vectors of one length, computed on the
    /// ciphertexts.
    pub fn xor(&self, other: &EncryptedVector, evaluator: &Evaluator) -> (c: EncryptedVector)
        requires
            self.owner() == evaluator.owner(),
            other.owner() == evaluator.owner(),
            self.plain().len() == other.plain().len(),
        ensures
            c.owner() == evaluator.owner(),
            c.plain() == xor_bytes(self.plain(), other.plain()),
    {
        let server = evaluator.server();
        proof {
            use_type_invariant(self);
            use_type_invariant(other);
            assert(array_shape(self.cells) =~= array_shape(other.cells));
            assert(computable(*server, self.cells, other.cells, evaluator.owner()));
        }
        let cells = xor_cells(server, &self.cells, &other.cells);
        EncryptedVector { cells, owner: Ghost(evaluator.owner()) }
    }

    /// The number of set bits of byte `i`, computed on the ciphertext.
    pub fn bit_count_at(&self, i: usize, evaluator: &Evaluator) -> (n: EncryptedScalar)
        requires
            self.owner() == evaluator.owner(),
            i < self.plain().len(),
        ensures
            n.owner() == evaluator.owner(),
            n.plain() == bit_count(self.plain()[i as int]),
    {
        let server = evaluator.server();
        let ghost key = evaluator.owner();
        proof {
            use_type_invariant(self);
            assert(holds_vector(self.cells, key));
        }
        let cell = cell_at(&self.cells, i);
        assert(evaluates_for(*server, key) && clear_u8(cell, key) is Some);
        let ones = count_ones(server, &cell);
        assert(evaluates_for(*server, key) && clear_u32(ones, key) is Some);
        let value = narrow(server, ones);
        proof {
            lemma_bit_count_bound(self.plain()[i as int]);
        }
        EncryptedScalar { value, owner: Ghost(key) }
    }
}

impl EncryptedScalar {
    #[verifier::type_invariant]
    spec fn well_formed(&self) -> bool {
        clear_u16(self.value, self.owner@) is Some
    }

    /// The private key under which this scalar decrypts.
    pub closed spec fn owner(&self) -> tfhe::ClientKey {
        self.owner@
    }

    /// The integer that this scalar decrypts to under its owner.
    pub closed spec fn plain(&self) -> u16 {
        clear_u16(self.value, self.owner@)->0
    }

    /// Encrypts `value` under the public key.
    pub fn encrypt(value: u16, key: &EncryptionKey) -> (c: EncryptedScalar)
        ensures
            c.owner() == key.owner(),
            c.plain() == value,
    {
        let inner = encrypt_u16(value, key.public());
        EncryptedScalar { value: inner, owner: Ghost(key.owner()) }
    }

    /// The sum of two scalars, computed on the ciphertexts. It wraps around
    /// at 2^16.
    pub fn add(&self, other: &EncryptedScalar, evaluator: &Evaluator) -> (sum: EncryptedScalar)
        requires
            self.owner() == evaluator.owner(),
            other.owner() == evaluator.owner(),
        ensures
            sum.owner() == evaluator.owner(),
            sum.plain() == (self.plain() + other.plain()) % 0x1_0000,
    {
        let server = evaluator.server();
        let ghost key = evaluator.owner();
        proof {
            use_type_invariant(self);
            use_type_invariant(other);
            assert(summable(*server, self.value, other.value, key));
        }
        let value = add_u16(server, &self.value, &other.value);
        EncryptedScalar { value, owner: Ghost(key) }
    }

    /// Decrypts the scalar with the private key it belongs to.
    pub fn decrypt(&self, key: &PrivateKey) -> (value: u16)
        requires
            self.owner() == key.owner(),
        ensures
            value == self.plain(),
    {
        proof {
            use_type_invariant(self);
        }
        decrypt_u16(&self.value, key.secret())
    }
}

/// Whether `server` can combine the arrays `a` and `b` cell by cell: it
/// evaluates for `key`, and both are vectors of `key`.
spec fn computable(
    server: tfhe::ServerKey,
    a: tfhe::CpuFheUint8Array,
    b: tfhe::CpuFheUint8Array,
    key: tfhe::ClientKey,
) -> bool {
    evaluates_for(server, key) && holds_vector(a, key) && holds_vector(b, key)
}

/// Whether `server` can add `x` and `y`: it evaluates for `key`, and both
/// are ciphertexts of `key`.
spec fn summable(server: tfhe::ServerKey, x: Cipher16, y: Cipher16, key: tfhe::ClientKey) -> bool {
    evaluates_for(server, key) && clear_u16(x, key) is Some && clear_u16(y, key) is Some
}

/// Calls `FheEncrypt::encrypt` of `tfhe::CpuFheUint8Array` on a slice and a
/// client key. The result has one ciphertext for each byte, in order, and the
/// shape `[bytes.len()]`.
#[verifier::external_body]
fn encrypt_cells(bytes: &[u8], key: &tfhe::ClientKey) -> (cells: tfhe::CpuFheUint8Array)
    requires
        exact_parameters(*key),
    ensures
        clear_bytes(cells, *key) == Some(bytes@),
        array_shape(cells).len() == 1,
        array_shape(cells)[0] == bytes@.len(),
{
    tfhe::CpuFheUint8Array::encrypt(bytes, key)
}

/// Calls `FheDecrypt::decrypt` of `tfhe::CpuFheUint8Array` for a `Vec<u8>`,
/// on ciphertexts of `key`. The result is the bytes they hold, in order.
#[verifier::external_body]
fn decrypt_cells(cells: &tfhe::CpuFheUint8Array, key: &tfhe::ClientKey) -> (bytes: Vec<u8>)
    requires
        clear_bytes(*cells, *key) is Some,
    ensures
        Some(bytes@) == clear_bytes(*cells, *key),
{
    cells.decrypt(key)
}

/// Calls `FheArrayBase::shape` and copies the slice it returns.
#[verifier::external_body]
fn shape_of(cells: &tfhe::CpuFheUint8Array) -> (shape: Vec<usize>)
    ensures
        shape@ == array_shape(*cells),
{
    cells.shape().to_vec()
}

/// Calls `BitXor` on the slices of two arrays, after handing `server` to
/// `tfhe::set_server_key`. `tfhe` panics where the shapes differ; where they
/// agree the result has that shape and holds, cell by cell and under every key
/// that `server` evaluates for, the XOR of the bytes of `a` and `b`.
#[verifier::external_body]
fn xor_cells(server: &tfhe::ServerKey, a: &tfhe::CpuFheUint8Array, b: &tfhe::CpuFheUint8Array) -> (c:
    tfhe::CpuFheUint8Array)
    requires
        array_shape(*a) == array_shape(*b),
        exists|key: tfhe::ClientKey| #[trigger] computable(*server, *a, *b, key),
    ensures
        array_shape(c) == array_shape(*a),
        forall|key: tfhe::ClientKey| #[trigger]
            computable(*server, *a, *b, key) ==> clear_bytes(c, key) == Some(
                xor_bytes(clear_bytes(*a, key)->0, clear_bytes(*b, key)->0),
            ),
{
    tfhe::set_server_key(server.clone());
    &a.as_slice() ^ &b.as_slice()
}

/// Clones cell `i` out of `FheArrayBase::container` and hands it to
/// `tfhe::FheUint8::from_raw_parts` with the default tag. Under every key of
/// which `cells` is a vector, the result holds byte `i`.
#[verifier::external_body]
fn cell_at(cells: &tfhe::CpuFheUint8Array, i: usize) -> (c: Cipher8)
    requires
        exists|key: tfhe::ClientKey| #[trigger] holds_vector(*cells, key),
        array_shape(*cells).len() == 1,
        i < array_shape(*cells)[0],
    ensures
        forall|key: tfhe::ClientKey| #[trigger]
            holds_vector(*cells, key) ==> clear_u8(c, key) == Some(
                clear_bytes(*cells, key)->0[i as int],
            ),
{
    let raw = cells.container()[i].clone();
    Cipher8 { inner: tfhe::FheUint8::from_raw_parts(raw, tfhe::FheUint8Id, tfhe::Tag::default()) }
}

/// Calls `tfhe::FheUint8::count_ones`, after handing `server` to
/// `tfhe::set_server_key`. The result holds the number of set bits of the
/// byte that `c` holds.
#[verifier::external_body]
fn count_ones(server: &tfhe::ServerKey, c: &Cipher8) -> (n: Cipher32)
    requires
        exists|key: tfhe::ClientKey|
            evaluates_for(*server, key) && #[trigger] clear_u8(*c, key) is Some,
    ensures
        forall|key: tfhe::ClientKey|
            evaluates_for(*server, key) && #[trigger] clear_u8(*c, key) is Some ==> clear_u32(n, key)
                == Some(bit_count(clear_u8(*c, key)->0) as u32),
{
    tfhe::set_server_key(server.clone());
    Cipher32 { inner: c.inner.count_ones() }
}

/// Calls `CastInto::cast_into` from `tfhe::FheUint32` to `tfhe::FheUint16`,
/// after handing `server` to `tfhe::set_server_key`. The cast keeps the low
/// 16 bits.
#[verifier::external_body]
fn narrow(server: &tfhe::ServerKey, n: Cipher32) -> (c: Cipher16)
    requires
        exists|key: tfhe::ClientKey|
            evaluates_for(*server, key) && #[trigger] clear_u32(n, key) is Some,
    ensures
        forall|key: tfhe::ClientKey|
            evaluates_for(*server, key) && #[trigger] clear_u32(n, key) is Some ==> clear_u16(c, key)
                == Some((clear_u32(n, key)->0 % 0x1_0000) as u16),
{
    tfhe::set_server_key(server.clone());
    Cipher16 { inner: n.inner.cast_into() }
}

/// Calls `Add` on two `&tfhe::FheUint16`, after handing `server` to
/// `tfhe::set_server_key`. The sum wraps around at 2^16.
#[verifier::external_body]
fn add_u16(server: &tfhe::ServerKey, x: &Cipher16, y: &Cipher16) -> (sum: Cipher16)
    requires
        exists|key: tfhe::ClientKey| #[trigger] summable(*server, *x, *y, key),
    ensures
        forall|key: tfhe::ClientKey| #[trigger]
            summable(*server, *x, *y, key) ==> clear_u16(sum, key) == Some(
                ((clear_u16(*x, key)->0 + clear_u16(*y, key)->0) % 0x1_0000) as u16,
            ),
{
    tfhe::set_server_key(server.clone());
    Cipher16 { inner: &x.inner + &y.inner }
}

/// Calls `FheEncrypt::encrypt` of `tfhe::FheUint16` with a public key. The
/// result holds `value` under every private key that the public key was
/// derived from.
#[verifier::external_body]
fn encrypt_u16(value: u16, public: &tfhe::PublicKey) -> (c: Cipher16)
    ensures
        forall|key: tfhe::ClientKey| #[trigger]
            encrypts_for(*public, key) ==> clear_u16(c, key) == Some(value),
{
    Cipher16 { inner: tfhe::FheUint16::encrypt(value, public) }
}

/// Calls `FheDecrypt::decrypt` of `tfhe::FheUint16` for a `u16`, on a
/// ciphertext of `key`. The result is the integer it holds.
#[verifier::external_body]
fn decrypt_u16(c: &Cipher16, key: &tfhe::ClientKey) -> (value: u16)
    requires
        clear_u16(*c, *key) is Some,
    ensures
        Some(value) == clear_u16(*c, *key),
{
    c.inner.decrypt(key)
}

} // verus!
