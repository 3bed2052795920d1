//! Signing and verifying transactions.

use crate::crypto::base64::Base64;
use crate::crypto::binding::sha384_collision;
use crate::crypto::hash::sha256;
use crate::crypto::keys::{jwk_key_wf, jwk_rsa_private_key, KeyPair, DEVELOPMENT_KEYPAIR};
use crate::crypto::{lemma_signed_verifies, signature_valid, signs, Provider};
use crate::error::Error;
use crate::transaction::integrity::lemma_signing_message_binds;
use crate::transaction::{Tx, TxView};
use vstd::prelude::*;

verus! {

/// Whether `signed` is `tx` as the key with the modulus `modulus` has signed
/// it: the same fields, a signature of the signing message by that key, and
/// the SHA-256 digest of the signature as id.
pub open spec fn signed_by(tx: TxView, signed: TxView, modulus: Seq<u8>) -> bool {
    &&& signed == tx.sealed(signed.signature)
    &&& signs(modulus, tx.signing_message(), signed.signature)
}

/// Whether `signed` is what signing `tx` with the key pair `keypair` may
/// give: the format is known, there is a key pair, and it has signed.
pub open spec fn signed_with(tx: TxView, signed: TxView, keypair: Option<KeyPair>) -> bool {
    &&& tx.supported_format()
    &&& keypair matches Some(key)
    &&& key.wf()
    &&& signed_by(tx, signed, key.modulus())
}

/// The error with which signing `tx` fails, where it fails: the canonical
/// form comes first, then the key, then the RSA backend.
pub open spec fn signing_error(tx: TxView, has_key: bool) -> Error {
    if !tx.supported_format() {
        Error::EncodingError
    } else if !has_key {
        Error::KeyUnavailable
    } else {
        Error::SigningFailed
    }
}

/// What verifying `tx` answers. A transaction without a signature or
/// without an id is unsigned; one of an unknown format has no canonical
/// form; otherwise the signature decides.
pub open spec fn verification_outcome(tx: TxView) -> Result<(), Error> {
    if !tx.is_signed() {
        Err(Error::UnsignedTransaction)
    } else if !tx.supported_format() {
        Err(Error::EncodingError)
    } else if signature_valid(tx.owner, tx.signing_message(), tx.signature) {
        Ok(())
    } else {
        Err(Error::InvalidSignature)
    }
}

/// Signing, then verifying: a transaction that a well-formed key pair has
/// signed, and whose owner is that pair's public key, verifies.
pub proof fn lemma_sign_then_verify(key: KeyPair, tx: TxView, signed: TxView)
    requires
        key.wf(),
        tx.supported_format(),
        tx.owner == key.modulus(),
        signed_by(tx, signed, key.modulus()),
    ensures
        verification_outcome(signed) == Ok::<(), Error>(()),
        signed.wf(),
{
    lemma_signed_verifies(key, tx.signing_message(), signed.signature);
    assert(signed.signing_item() == tx.signing_item());
}

/// A transaction that was changed in a signed field is verified against a
/// different message: verifying it fails with `InvalidSignature`, unless
/// SHA-384 collides or its signature is one that the owner's key also
/// accepts for the changed message.
pub proof fn lemma_tampering_changes_message(signed: Tx, tampered: Tx)
    requires
        !signed@.same_signed_fields(tampered@),
        tampered@.is_signed(),
        tampered@.supported_format(),
    ensures
        sha384_collision() || (signed@.signing_message() != tampered@.signing_message() && (
        verification_outcome(tampered@) == Err::<(), Error>(Error::InvalidSignature)
            || signature_valid(
            tampered@.owner,
            tampered@.signing_message(),
            tampered@.signature,
        ))),
{
    if signed@.signing_message() == tampered@.signing_message() {
        lemma_signing_message_binds(signed, tampered);
    }
}

/// Signs `transaction` with `provider`. A signature that the transaction
/// already carries is overwritten: signing again is how a transaction is
/// anchored anew.
pub fn sign_transaction_with(provider: &Provider, transaction: Tx) -> (signed: Result<Tx, Error>)
    ensures
        match signed {
            Ok(t) => signed_with(transaction@, t@, provider.keypair()),
            Err(e) => e == signing_error(transaction@, provider.keypair() is Some),
        },
        !transaction@.supported_format() || provider.keypair() is None ==> signed is Err,
{
    let message = match transaction.signature_data() {
        Ok(message) => message,
        Err(e) => {
            return Err(e);
        },
    };
    let signature = provider.sign(message.as_slice());
    transaction.seal(signature)
}

/// Verifies the signature of `transaction` under its owner's key.
pub fn verify_transaction_with(provider: &Provider, transaction: &Tx) -> (outcome: Result<
    (),
    Error,
>)
    ensures
        outcome == verification_outcome(transaction@),
{
    if transaction.signature.is_empty() || transaction.id.is_empty() {
        return Err(Error::UnsignedTransaction);
    }
    let message = match transaction.signature_data() {
        Ok(message) => message,
        Err(e) => {
            return Err(e);
        },
    };
    if provider.verify(
        transaction.owner.0.as_slice(),
        message.as_slice(),
        transaction.signature.0.as_slice(),
    ) {
        Ok(())
    } else {
        Err(Error::InvalidSignature)
    }
}

/// Signs and verifies transactions with one key pair.
pub struct ArweaveSigner {
    crypto: Provider,
}

impl Default for ArweaveSigner {
    /// A signer with the development key pair.
    fn default() -> (signer: ArweaveSigner)
        ensures
            signer.provider().keypair() is Some <==> jwk_key_wf(DEVELOPMENT_KEYPAIR@),
            signer.provider().keypair() matches Some(key) ==> key.wf() && jwk_rsa_private_key(
                DEVELOPMENT_KEYPAIR@,
            ) == Some(key@),
    {
        ArweaveSigner { crypto: Provider::default() }
    }
}

impl ArweaveSigner {
    /// The provider that the signer signs with.
    pub closed spec fn provider(&self) -> Provider {
        self.crypto
    }

    /// Verifies `signature` as a signature of `message` under the public key
    /// `pub_key`. Fails with `InvalidSignature` where it does not verify.
    pub fn verify(pub_key: &[u8], message: &[u8], signature: &[u8]) -> (outcome: Result<(), Error>)
        ensures
            outcome == (if signature_valid(pub_key@, message@, signature@) {
                Ok::<(), Error>(())
            } else {
                Err::<(), Error>(Error::InvalidSignature)
            }),
    {
        let crypto = Provider::without_key();
        if crypto.verify(pub_key, message, signature) {
            Ok(())
        } else {
            Err(Error::InvalidSignature)
        }
    }

    /// A signer for the key that a key file holds. `keypair_json` is the text
    /// of the file, a JSON Web Key; reading the file is the caller's part.
    /// Fails with `KeyUnavailable` where the text holds no well-formed
    /// private RSA key.
    pub fn from_keypair_path(keypair_json: &str) -> (signer: Result<ArweaveSigner, Error>)
        ensures
            match signer {
                Ok(s) => s.provider().keypair() matches Some(key) && key.wf()
                    && jwk_rsa_private_key(keypair_json@) == Some(key@),
                Err(e) => e == Error::KeyUnavailable && !jwk_key_wf(keypair_json@),
            },
    {
        match Provider::from_keypair_path(keypair_json) {
            Ok(crypto) => Ok(ArweaveSigner { crypto }),
            Err(e) => Err(e),
        }
    }

    /// A signer that signs with `keypair`.
    pub fn from_keypair(keypair: KeyPair) -> (signer: ArweaveSigner)
        ensures
            signer.provider().keypair() == Some(keypair),
    {
        ArweaveSigner { crypto: Provider::with_keypair(keypair) }
    }

    /// Signs `transaction`: computes the deep hash of its canonical form,
    /// signs it, and sets the signature and the id (the SHA-256 digest of the
    /// signature). A signature already there is overwritten.
    pub fn sign_transaction(&self, transaction: Tx) -> (signed: Result<Tx, Error>)
        ensures
            match signed {
                Ok(t) => signed_with(transaction@, t@, self.provider().keypair()),
                Err(e) => e == signing_error(transaction@, self.provider().keypair() is Some),
            },
            !transaction@.supported_format() || self.provider().keypair() is None
                ==> signed is Err,
    {
        sign_transaction_with(&self.crypto, transaction)
    }

    /// Signs `message`. Fails with `KeyUnavailable` without a key pair, and
    /// with `SigningFailed` where the RSA backend refuses the key.
    pub fn sign(&self, message: &[u8]) -> (signature: Result<Base64, Error>)
        ensures
            match self.provider().keypair() {
                None => signature matches Err(e) && e == Error::KeyUnavailable,
                Some(key) => key.wf() && match signature {
                    Ok(s) => signs(key.modulus(), message@, s@),
                    Err(e) => e == Error::SigningFailed,
                },
            },
    {
        self.crypto.sign(message)
    }

    /// Verifies the signature of `transaction` under its owner's key. Fails
    /// with `UnsignedTransaction` where the signature or the id is empty,
    /// with `EncodingError` where the format is unknown, and with
    /// `InvalidSignature` where the signature does not verify.
    pub fn verify_transaction(transaction: &Tx) -> (outcome: Result<(), Error>)
        ensures
            outcome == verification_outcome(transaction@),
    {
        let crypto = Provider::without_key();
        verify_transaction_with(&crypto, transaction)
    }

    /// The address of the wallet: the SHA-256 digest of the public key.
    pub fn wallet_address(&self) -> (address: Base64)
        ensures
            address@ == (match self.provider().keypair() {
                Some(key) => sha256(key.modulus())@,
                None => Seq::empty(),
            }),
    {
        self.crypto.wallet_address()
    }

    /// The modulus of the key pair, empty without one.
    pub fn keypair_modulus(&self) -> (modulus: Base64)
        ensures
            modulus@ == self.provider().modulus(),
    {
        self.crypto.keypair_modulus()
    }

    /// The provider that the signer signs with.
    pub fn get_provider(&self) -> (provider: &Provider)
        ensures
            *provider == self.provider(),
    {
        &self.crypto
    }

    /// The public key, which is the modulus of the key pair.
    pub fn get_public_key(&self) -> (key: Base64)
        ensures
            key@ == self.provider().modulus(),
    {
        self.crypto.public_key()
    }
}

} // verus!
