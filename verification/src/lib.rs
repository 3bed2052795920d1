//! Client-side transaction engine for a content-addressed ledger network.
//!
//! The library builds the canonical deep hash of a transaction, signs and
//! verifies transactions with RSA-PSS, and decides every step of publishing a
//! signed transaction (and the chunks of a large payload) to a gateway. All
//! I/O is left to the caller.

use crate::crypto::base64::Base64;
use crate::crypto::keys::{jwk_key_wf, jwk_rsa_private_key, DEVELOPMENT_KEYPAIR};
use crate::crypto::Provider;
use crate::error::Error;
use crate::signer::{
    sign_transaction_with, signed_with, signing_error, verification_outcome,
    verify_transaction_with,
};
use crate::submit::{Route, SubmitConfig};
use crate::transaction::tags::{tags_view, Tag};
use crate::transaction::{Tx, TxView};
use vstd::prelude::*;
use vstd::string::StringExecFns;

pub mod crypto;
pub mod error;
pub mod gateway;
pub mod signer;
pub mod submit;
pub mod transaction;
pub mod upload;

verus! {

/// Size of one payload chunk: 256 KiB.
pub const BLOCK_SIZE: u64 = 262_144;

/// Payloads of this many bytes or more are uploaded as separate chunks.
pub const MAX_TX_DATA: u64 = 10_000_000;

/// Multiplier applied to the caller's buffer size to bound the number of
/// chunk requests that may be in flight at once.
pub const CHUNKS_BUFFER_FACTOR: usize = 20;

/// Number of times a request is attempted before it is given up.
pub const CHUNKS_RETRIES: u16 = 10;

/// Seconds to wait after a failed attempt.
pub const CHUNKS_RETRY_SLEEP: u64 = 1;

/// The unsigned transaction that a wallet with the public key `owner`
/// creates. A payload that goes inline is carried and signed as `data`, in
/// format 1; one that goes in chunks is left out of the record, which
/// commits to it by `data_root`, in format 2. The declared size is the
/// payload's length either way.
pub open spec fn created(
    owner: Seq<u8>,
    target: Seq<u8>,
    tags: Seq<(Seq<u8>, Seq<u8>)>,
    data: Seq<u8>,
    data_root: Seq<u8>,
    quantity: u64,
    fee: u64,
    last_tx: Seq<u8>,
    config: SubmitConfig,
) -> TxView {
    let inline = config.route_of(data.len() as u64) == Route::Inline;
    TxView {
        format: if inline {
            1
        } else {
            2
        },
        id: Seq::empty(),
        last_tx,
        owner,
        tags,
        target,
        quantity,
        data_root: if inline {
            Seq::empty()
        } else {
            data_root
        },
        data: if inline {
            data
        } else {
            Seq::empty()
        },
        data_size: data.len() as u64,
        reward: fee,
        signature: Seq::empty(),
    }
}

/// A client of one gateway: the gateway's base URL and the provider that
/// signs for the wallet.
pub struct Arweave {
    pub base_url: String,
    pub crypto: Provider,
}

impl Default for Arweave {
    /// A client of `https://arweave.net/` with the development key pair.
    fn default() -> (client: Arweave)
        ensures
            client.base_url@ == "https://arweave.net/"@,
            client.crypto.keypair() is Some <==> jwk_key_wf(DEVELOPMENT_KEYPAIR@),
            client.crypto.keypair() matches Some(key) ==> key.wf() && jwk_rsa_private_key(
                DEVELOPMENT_KEYPAIR@,
            ) == Some(key@),
    {
        Arweave { base_url: String::from_str("https://arweave.net/"), crypto: Provider::default() }
    }
}

impl Arweave {
    /// A client of the gateway at `base_url` for the key that a key file
    /// holds. `keypair_json` is the text of the file, a JSON Web Key; reading
    /// the file is the caller's part. Fails with `KeyUnavailable` where the
    /// text holds no well-formed private RSA key.
    pub fn from_keypair_path(keypair_json: &str, base_url: String) -> (client: Result<
        Arweave,
        Error,
    >)
        ensures
            match client {
                Ok(c) => c.crypto.keypair() matches Some(key) && key.wf() && jwk_rsa_private_key(
                    keypair_json@,
                ) == Some(key@) && c.base_url@ == base_url@,
                Err(e) => e == Error::KeyUnavailable && !jwk_key_wf(keypair_json@),
            },
    {
        match Provider::from_keypair_path(keypair_json) {
            Ok(crypto) => Ok(Arweave { base_url, crypto }),
            Err(e) => Err(e),
        }
    }

    /// Fills in an unsigned transaction of the wallet. `last_tx` is the
    /// anchor that the caller has fetched; `data_root` is the commitment to
    /// the payload, which is used where the payload goes in chunks. Fails
    /// with `KeyUnavailable` where the client has no key pair, and so no
    /// owner to name.
    pub fn create_transaction(
        &self,
        target: Base64,
        other_tags: Vec<Tag>,
        data: Vec<u8>,
        data_root: Base64,
        quantity: u64,
        fee: u64,
        last_tx: Base64,
        config: &SubmitConfig,
    ) -> (transaction: Result<Tx, Error>)
        ensures
            match transaction {
                Ok(tx) => self.crypto.keypair() is Some && tx@ == created(
                    self.crypto.modulus(),
                    target@,
                    tags_view(other_tags@),
                    data@,
                    data_root@,
                    quantity,
                    fee,
                    last_tx@,
                    *config,
                ),
                Err(e) => e == Error::KeyUnavailable && self.crypto.keypair() is None,
            },
    {
        let owner = self.crypto.keypair_modulus();
        if owner.is_empty() {
            proof {
                if self.crypto.keypair() is Some {
                    self.crypto.lemma_modulus_nonempty();
                }
            }
            return Err(Error::KeyUnavailable);
        }
        let data_size = data.len() as u64;
        let tx = match config.route(data_size) {
            Route::Inline => Tx {
                format: 1,
                id: Base64(Vec::new()),
                last_tx,
                owner,
                tags: other_tags,
                target,
                quantity,
                data_root: Base64(Vec::new()),
                data: Base64(data),
                data_size,
                reward: fee,
                signature: Base64(Vec::new()),
            },
            Route::Chunked => Tx {
                format: 2,
                id: Base64(Vec::new()),
                last_tx,
                owner,
                tags: other_tags,
                target,
                quantity,
                data_root,
                data: Base64(Vec::new()),
                data_size,
                reward: fee,
                signature: Base64(Vec::new()),
            },
        };
        Ok(tx)
    }

    /// Signs `transaction`: computes the deep hash of its canonical form,
    /// signs it, and sets the signature and the id. A signature already
    /// there is overwritten.
    pub fn sign_transaction(&self, transaction: Tx) -> (signed: Result<Tx, Error>)
        ensures
            match signed {
                Ok(t) => signed_with(transaction@, t@, self.crypto.keypair()),
                Err(e) => e == signing_error(transaction@, self.crypto.keypair() is Some),
            },
            !transaction@.supported_format() || self.crypto.keypair() is None ==> signed is Err,
    {
        sign_transaction_with(&self.crypto, transaction)
    }

    /// Verifies the signature of `transaction` under its owner's key.
    pub fn verify_transaction(&self, transaction: &Tx) -> (outcome: Result<(), Error>)
        ensures
            outcome == verification_outcome(transaction@),
    {
        verify_transaction_with(&self.crypto, transaction)
    }
}

} // verus!
