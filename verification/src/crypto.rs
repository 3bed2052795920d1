//! Hashing, the deep hash, and the RSA-PSS signing provider.

pub mod base64;
pub mod binding;
pub mod hash;
pub mod keys;

use crate::crypto::base64::Base64;
use crate::crypto::hash::{deep_hash, deep_hash_of, sha256, sha256_of, sha384, sha384_of, DeepHashItem};
use crate::crypto::keys::{
    jwk_key_wf, jwk_rsa_private_key, public_exponent, public_key_of, rsa_pss_sha256_accepts,
    verify_digest, verifying_modulus, KeyPair, DEVELOPMENT_KEYPAIR,
};
use crate::error::Error;
use vstd::prelude::*;

verus! {

/// Whether `signature` is a signature of `message` that the key with the
/// modulus `modulus` has made: it has the modulus's length and is accepted
/// for the SHA-256 digest of the message.
pub open spec fn signs(modulus: Seq<u8>, message: Seq<u8>, signature: Seq<u8>) -> bool {
    &&& signature.len() == modulus.len()
    &&& rsa_pss_sha256_accepts(modulus, public_exponent(), sha256(message)@, signature)
}

/// Whether `signature` verifies as a signature of `message` under the public
/// key `public_key`: the key's verifying modulus exists and accepts the
/// signature for the SHA-256 digest of the message.
pub open spec fn signature_valid(
    public_key: Seq<u8>,
    message: Seq<u8>,
    signature: Seq<u8>,
) -> bool {
    match verifying_modulus(public_key) {
        Some(n) => rsa_pss_sha256_accepts(n, public_exponent(), sha256(message)@, signature),
        None => false,
    }
}

/// A signature that a well-formed key pair has made verifies under the
/// pair's public key.
pub proof fn lemma_signed_verifies(key: KeyPair, message: Seq<u8>, signature: Seq<u8>)
    requires
        key.wf(),
        signs(key.modulus(), message, signature),
    ensures
        signature_valid(key.modulus(), message, signature),
        signature.len() >= 34,
{
    key.lemma_wf();
}

/// What signing answers for what the RSA backend handed out: the signature
/// where there is one, `SigningFailed` where the backend gave none.
pub fn signing_result(signature: Option<Vec<u8>>) -> (result: Result<Base64, Error>)
    ensures
        match signature {
            Some(s) => result matches Ok(b) && b@ == s@,
            None => result matches Err(e) && e == Error::SigningFailed,
        },
{
    match signature {
        Some(s) => Ok(Base64(s)),
        None => Err(Error::SigningFailed),
    }
}

/// The signing provider: hashing, and RSA-PSS signing and verifying. It may
/// hold a key pair; without one it only hashes and verifies.
pub struct Provider {
    keypair: Option<KeyPair>,
}

impl Provider {
    /// The key pair that the provider holds.
    pub closed spec fn keypair(&self) -> Option<KeyPair> {
        self.keypair
    }

    /// The public key: the modulus of the key pair, no bytes without one.
    pub open spec fn modulus(&self) -> Seq<u8> {
        match self.keypair() {
            Some(key) => key.modulus(),
            None => Seq::empty(),
        }
    }

    /// The key pair of a provider, where it has one, is well formed, and its
    /// modulus is not empty.
    pub proof fn lemma_modulus_nonempty(self)
        requires
            self.keypair() is Some,
            self.keypair()->Some_0.wf(),
        ensures
            self.modulus().len() >= 34,
    {
        self.keypair()->Some_0.lemma_wf();
    }

    /// A provider that signs with `keypair`.
    pub fn with_keypair(keypair: KeyPair) -> (provider: Provider)
        ensures
            provider.keypair() == Some(keypair),
    {
        Provider { keypair: Some(keypair) }
    }

    /// A provider without a private key: it hashes and verifies only.
    pub fn without_key() -> (provider: Provider)
        ensures
            provider.keypair() is None,
    {
        Provider { keypair: None }
    }

    /// A provider for the key that a key file holds. `keypair_json` is the
    /// text of the file, a JSON Web Key. Fails with `KeyUnavailable` where
    /// the text holds no well-formed private RSA key.
    pub fn from_keypair_path(keypair_json: &str) -> (provider: Result<Provider, Error>)
        ensures
            match provider {
                Ok(p) => p.keypair() matches Some(key) && key.wf() && jwk_rsa_private_key(
                    keypair_json@,
                ) == Some(key@),
                Err(e) => e == Error::KeyUnavailable && !jwk_key_wf(keypair_json@),
            },
    {
        match KeyPair::from_jwk(keypair_json) {
            Some(key) => Ok(Provider { keypair: Some(key) }),
            None => Err(Error::KeyUnavailable),
        }
    }

    /// The modulus of the key pair, empty without one.
    pub fn keypair_modulus(&self) -> (modulus: Base64)
        ensures
            modulus@ == self.modulus(),
            self.keypair() matches Some(key) ==> key.wf(),
    {
        match &self.keypair {
            Some(key) => {
                proof {
                    use_type_invariant(key);
                }
                Base64(key.modulus_bytes())
            },
            None => Base64(Vec::new()),
        }
    }

    /// The public key, which is the modulus of the key pair.
    pub fn public_key(&self) -> (key: Base64)
        ensures
            key@ == self.modulus(),
    {
        self.keypair_modulus()
    }

    /// The address of the wallet: the SHA-256 digest of the public key, empty
    /// without a key pair.
    pub fn wallet_address(&self) -> (address: Base64)
        ensures
            address@ == (match self.keypair() {
                Some(key) => sha256(key.modulus())@,
                None => Seq::empty(),
            }),
    {
        match &self.keypair {
            Some(key) => {
                let modulus = key.modulus_bytes();
                let digest = sha256_of(modulus.as_slice());
                Base64(vstd::slice::slice_to_vec(digest.as_slice()))
            },
            None => Base64(Vec::new()),
        }
    }

    /// The SHA-256 digest of `message`.
    pub fn hash_sha256(&self, message: &[u8]) -> (digest: [u8; 32])
        ensures
            digest == sha256(message@),
    {
        sha256_of(message)
    }

    /// The SHA-384 digest of `message`.
    pub fn hash_sha384(&self, message: &[u8]) -> (digest: [u8; 48])
        ensures
            digest == sha384(message@),
    {
        let empty: Vec<u8> = Vec::new();
        assert(message@ + empty@ =~= message@);
        sha384_of(message, empty.as_slice())
    }

    /// The deep hash of `item`.
    pub fn deep_hash(&self, item: DeepHashItem) -> (digest: [u8; 48])
        ensures
            digest@ == deep_hash_of(item@),
    {
        deep_hash(&item)
    }

    /// Signs `message`: RSA-PSS over its SHA-256 digest, with a random salt.
    /// Fails with `KeyUnavailable` without a key pair, and with
    /// `SigningFailed` where the RSA backend refuses the key.
    pub fn sign(&self, message: &[u8]) -> (signature: Result<Base64, Error>)
        ensures
            match self.keypair() {
                None => signature matches Err(e) && e == Error::KeyUnavailable,
                Some(key) => key.wf() && match signature {
                    Ok(s) => signs(key.modulus(), message@, s@),
                    Err(e) => e == Error::SigningFailed,
                },
            },
    {
        match &self.keypair {
            None => Err(Error::KeyUnavailable),
            Some(key) => {
                proof {
                    use_type_invariant(key);
                }
                let hashed = sha256_of(message);
                signing_result(key.sign_digest(hashed.as_slice()))
            },
        }
    }

    /// Whether `signature` verifies as a signature of `message` under the
    /// public key `pub_key` (a raw modulus; the exponent is 65537).
    pub fn verify(&self, pub_key: &[u8], message: &[u8], signature: &[u8]) -> (ok: bool)
        ensures
            ok == signature_valid(pub_key@, message@, signature@),
    {
        match public_key_of(pub_key) {
            Some(modulus) => {
                let hashed = sha256_of(message);
                verify_digest(modulus.as_slice(), hashed.as_slice(), signature)
            },
            None => false,
        }
    }
}

impl Default for Provider {
    /// A provider with the development key pair; without a key where the
    /// RSA backend does not read that key.
    fn default() -> (provider: Provider)
        ensures
            provider.keypair() is Some <==> jwk_key_wf(DEVELOPMENT_KEYPAIR@),
            provider.keypair() matches Some(key) ==> key.wf() && jwk_rsa_private_key(
                DEVELOPMENT_KEYPAIR@,
            ) == Some(key@),
    {
        Provider { keypair: KeyPair::development() }
    }
}

} // verus!
