//! Key material: one private key, and the public key and the evaluation key
//! derived from it.
//!
//! Each derived key remembers, as ghost state, the private key it belongs
//! to. Contracts elsewhere ask that the keys and ciphertexts of one call
//! belong to one private key.

use vstd::prelude::*;
use crate::scheme::{encrypts_for, evaluates_for, exact_parameters};

verus! {

/// The private key: it encrypts descriptors and decrypts distances.
pub struct PrivateKey {
    key: tfhe::ClientKey,
}

/// The public key: it encrypts, and cannot decrypt.
pub struct EncryptionKey {
    key: tfhe::PublicKey,
    owner: Ghost<tfhe::ClientKey>,
}

/// The evaluation key, before it is installed.
pub struct EvaluationKey {
    key: tfhe::ServerKey,
    owner: Ghost<tfhe::ClientKey>,
}

/// An installed evaluation key: the capability to compute on ciphertexts.
pub struct Evaluator {
    key: tfhe::ServerKey,
    owner: Ghost<tfhe::ClientKey>,
}

impl PrivateKey {
    #[verifier::type_invariant]
    spec fn well_formed(&self) -> bool {
        exact_parameters(self.key)
    }

    /// The key set that this key stands for: the secret key itself.
    pub closed spec fn owner(&self) -> tfhe::ClientKey {
        self.key
    }

    /// Generates a private key with the default parameters. The key is drawn
    /// at random; what holds of every one is that its parameters are the
    /// default ones, on which `tfhe` computes exactly.
    pub fn generate() -> (private: PrivateKey)
        ensures
            exact_parameters(private.owner()),
    {
        PrivateKey { key: new_client_key() }
    }

    /// Takes a secret key made elsewhere, for example with parameters other
    /// than the default ones.
    ///
    /// The caller vouches for the parameters of the key: they must be a set
    /// on which `tfhe` computes exactly. Nothing in this library can test
    /// that of a key it did not generate, so no verified caller can bring a
    /// key of its own this way; `PrivateKey::generate` is the way that needs
    /// no such promise.
    pub fn from_client_key(key: tfhe::ClientKey) -> (private: PrivateKey)
        requires
            exact_parameters(key),
        ensures
            private.owner() == key,
    {
        PrivateKey { key }
    }

    /// The secret key itself.
    pub(crate) fn secret(&self) -> (key: &tfhe::ClientKey)
        ensures
            *key == self.owner(),
            exact_parameters(*key),
    {
        proof {
            use_type_invariant(self);
        }
        &self.key
    }

    /// Derives the public key and the evaluation key of this private key.
    pub fn derive(&self) -> (derived: (EncryptionKey, EvaluationKey))
        ensures
            derived.0.owner() == self.owner(),
            derived.1.owner() == self.owner(),
    {
        proof {
            use_type_invariant(self);
        }
        let server = derive_server_key(&self.key);
        let public = derive_public_key(&self.key);
        (
            EncryptionKey { key: public, owner: Ghost(self.key) },
            EvaluationKey { key: server, owner: Ghost(self.key) },
        )
    }
}

impl EncryptionKey {
    #[verifier::type_invariant]
    spec fn well_formed(&self) -> bool {
        encrypts_for(self.key, self.owner@)
    }

    /// The private key that this key was derived from.
    pub closed spec fn owner(&self) -> tfhe::ClientKey {
        self.owner@
    }

    /// The public key itself.
    pub(crate) fn public(&self) -> (key: &tfhe::PublicKey)
        ensures
            encrypts_for(*key, self.owner()),
    {
        proof {
            use_type_invariant(self);
        }
        &self.key
    }
}

impl EvaluationKey {
    #[verifier::type_invariant]
    spec fn well_formed(&self) -> bool {
        evaluates_for(self.key, self.owner@)
    }

    /// The private key that this key was derived from.
    pub closed spec fn owner(&self) -> tfhe::ClientKey {
        self.owner@
    }
}

impl Evaluator {
    #[verifier::type_invariant]
    spec fn well_formed(&self) -> bool {
        evaluates_for(self.key, self.owner@)
    }

    /// The private key whose ciphertexts this evaluator computes on.
    pub closed spec fn owner(&self) -> tfhe::ClientKey {
        self.owner@
    }

    /// The evaluation key itself.
    pub(crate) fn server(&self) -> (key: &tfhe::ServerKey)
        ensures
            evaluates_for(*key, self.owner()),
    {
        proof {
            use_type_invariant(self);
        }
        &self.key
    }
}

/// Generates one key set with the default parameters: the private key, and
/// the public key and the evaluation key that belong to it.
pub fn generate() -> (keys: (PrivateKey, EncryptionKey, EvaluationKey))
    ensures
        keys.1.owner() == keys.0.owner(),
        keys.2.owner() == keys.0.owner(),
{
    let private = PrivateKey::generate();
    let (public, evaluation) = private.derive();
    (private, public, evaluation)
}

/// Installs the evaluation key on the calling thread and returns the
/// evaluator that computes with it.
pub fn install(key: EvaluationKey) -> (evaluator: Evaluator)
    ensures
        evaluator.owner() == key.owner(),
{
    proof {
        use_type_invariant(&key);
    }
    set_thread_server_key(&key.key);
    Evaluator { key: key.key, owner: key.owner }
}

/// Calls `tfhe::ClientKey::generate` with `tfhe::ConfigBuilder::default()`.
/// The key is drawn at random: all that is claimed of it is that it has the
/// default parameters, which are exact.
#[verifier::external_body]
fn new_client_key() -> (client: tfhe::ClientKey)
    ensures
        exact_parameters(client),
{
    tfhe::ClientKey::generate(tfhe::ConfigBuilder::default())
}

/// Calls `tfhe::ClientKey::generate_server_key`, as `tfhe::generate_keys`
/// does. Claims that the result is the evaluation key of `client`.
#[verifier::external_body]
fn derive_server_key(client: &tfhe::ClientKey) -> (server: tfhe::ServerKey)
    requires
        exact_parameters(*client),
    ensures
        evaluates_for(server, *client),
{
    client.generate_server_key()
}

/// Calls `tfhe::PublicKey::new`. Claims that the result is a public key of
/// `client`.
#[verifier::external_body]
fn derive_public_key(client: &tfhe::ClientKey) -> (public: tfhe::PublicKey)
    requires
        exact_parameters(*client),
    ensures
        encrypts_for(public, *client),
{
    tfhe::PublicKey::new(client)
}

/// Calls `tfhe::set_server_key` with a clone of `server`, which shares the
/// key behind an `Arc`. It changes thread-local state only.
#[verifier::external_body]
fn set_thread_server_key(server: &tfhe::ServerKey) {
    tfhe::set_server_key(server.clone())
}

} // verus!
