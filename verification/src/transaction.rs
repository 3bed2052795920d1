//! The transaction record and its canonical form.

pub mod integrity;
pub mod tags;

use crate::crypto::base64::Base64;
use crate::crypto::hash::{
    decimal, decimal_of, deep_hash, deep_hash_of, sha256, sha256_of, DeepHashItem, Item,
};
use crate::error::Error;
use crate::transaction::tags::{tags_item, tags_to_deep_hash_item, tags_view, Tag};
use vstd::prelude::*;

verus! {

/// A transaction: the unit that is signed, verified and published.
#[derive(Debug, Clone, PartialEq, Eq)]
pub struct Tx {
    /// Protocol version: 1 carries its payload inline, 2 commits to it by
    /// `data_root`.
    pub format: u8,
    /// SHA-256 of the signature; empty until signed.
    pub id: Base64,
    /// Anchor to a recent state of the network.
    pub last_tx: Base64,
    /// The signer's public key: the raw RSA modulus.
    pub owner: Base64,
    /// Name/value pairs; their order is part of what is signed.
    pub tags: Vec<Tag>,
    /// Address of the recipient; may be empty.
    pub target: Base64,
    /// Amount transferred; may be zero.
    pub quantity: u64,
    /// Commitment to a payload that is uploaded in chunks.
    pub data_root: Base64,
    /// Inline payload.
    pub data: Base64,
    /// Declared length of the payload in bytes.
    pub data_size: u64,
    /// The fee paid for the transaction.
    pub reward: u64,
    /// The RSA-PSS signature; empty until signed.
    pub signature: Base64,
}

/// A transaction as mathematical values.
pub struct TxView {
    pub format: u8,
    pub id: Seq<u8>,
    pub last_tx: Seq<u8>,
    pub owner: Seq<u8>,
    pub tags: Seq<(Seq<u8>, Seq<u8>)>,
    pub target: Seq<u8>,
    pub quantity: u64,
    pub data_root: Seq<u8>,
    pub data: Seq<u8>,
    pub data_size: u64,
    pub reward: u64,
    pub signature: Seq<u8>,
}

impl View for Tx {
    type V = TxView;

    open spec fn view(&self) -> TxView {
        TxView {
            format: self.format,
            id: self.id@,
            last_tx: self.last_tx@,
            owner: self.owner@,
            tags: tags_view(self.tags@),
            target: self.target@,
            quantity: self.quantity,
            data_root: self.data_root@,
            data: self.data@,
            data_size: self.data_size,
            reward: self.reward,
            signature: self.signature@,
        }
    }
}

impl TxView {
    /// The formats whose canonical form is defined: 1 and 2.
    pub open spec fn supported_format(self) -> bool {
        self.format == 1 || self.format == 2
    }

    /// The payload field that is signed: the inline data in format 1, the
    /// data root otherwise.
    pub open spec fn signed_payload(self) -> Seq<u8> {
        if self.format == 1 {
            self.data
        } else {
            self.data_root
        }
    }

    /// The canonical form of the transaction: the list of its signed fields
    /// in their fixed order. Numbers are written in decimal; an empty field
    /// is an empty byte string, never left out.
    pub open spec fn signing_item(self) -> Item {
        Item::List(
            seq![
                Item::Blob(decimal(self.format as nat)),
                Item::Blob(self.owner),
                Item::Blob(self.target),
                Item::Blob(decimal(self.quantity as nat)),
                Item::Blob(decimal(self.reward as nat)),
                Item::Blob(self.last_tx),
                tags_item(self.tags),
                Item::Blob(decimal(self.data_size as nat)),
                Item::Blob(self.signed_payload()),
            ],
        )
    }

    /// The message that a signature commits to: the deep hash of the
    /// canonical form.
    pub open spec fn signing_message(self) -> Seq<u8> {
        deep_hash_of(self.signing_item())
    }

    /// Whether the transaction carries both a signature and an id.
    pub open spec fn is_signed(self) -> bool {
        self.signature.len() > 0 && self.id.len() > 0
    }

    /// Whether the signature and the id are both empty or both there.
    pub open spec fn wf(self) -> bool {
        (self.signature.len() == 0) == (self.id.len() == 0)
    }

    /// The transaction with `signature` attached and the id derived from it.
    pub open spec fn sealed(self, signature: Seq<u8>) -> TxView {
        TxView { signature, id: sha256(signature)@, ..self }
    }
}

impl Tx {
    /// The canonical form of the transaction. Fails with `EncodingError`
    /// where the format is neither 1 nor 2.
    pub fn to_deep_hash_item(&self) -> (item: Result<DeepHashItem, Error>)
        ensures
            match item {
                Ok(i) => self@.supported_format() && i@ == self@.signing_item(),
                Err(e) => e == Error::EncodingError && !self@.supported_format(),
            },
    {
        if self.format != 1 && self.format != 2 {
            return Err(Error::EncodingError);
        }
        let mut fields: Vec<DeepHashItem> = Vec::new();
        fields.push(DeepHashItem::Blob(decimal_of(self.format as u64)));
        fields.push(DeepHashItem::Blob(self.owner.0.clone()));
        fields.push(DeepHashItem::Blob(self.target.0.clone()));
        fields.push(DeepHashItem::Blob(decimal_of(self.quantity)));
        fields.push(DeepHashItem::Blob(decimal_of(self.reward)));
        fields.push(DeepHashItem::Blob(self.last_tx.0.clone()));
        fields.push(tags_to_deep_hash_item(&self.tags));
        fields.push(DeepHashItem::Blob(decimal_of(self.data_size)));
        if self.format == 1 {
            fields.push(DeepHashItem::Blob(self.data.0.clone()));
        } else {
            fields.push(DeepHashItem::Blob(self.data_root.0.clone()));
        }
        proof {
            DeepHashItem::lemma_list_view(fields, self@.signing_item()->List_0);
        }
        Ok(DeepHashItem::List(fields))
    }

    /// The message that a signature of the transaction commits to. Fails
    /// with `EncodingError` where the format is neither 1 nor 2.
    pub fn signature_data(&self) -> (message: Result<[u8; 48], Error>)
        ensures
            match message {
                Ok(m) => self@.supported_format() && m@ == self@.signing_message(),
                Err(e) => e == Error::EncodingError && !self@.supported_format(),
            },
    {
        match self.to_deep_hash_item() {
            Ok(item) => Ok(deep_hash(&item)),
            Err(e) => Err(e),
        }
    }

    /// Attaches the outcome of signing: on a signature, the transaction with
    /// that signature and the id derived from it, whatever signature and id
    /// it had before; on an error, that error.
    pub fn seal(self, signature: Result<Base64, Error>) -> (signed: Result<Tx, Error>)
        ensures
            match signature {
                Ok(s) => signed matches Ok(t) && t@ == self@.sealed(s@),
                Err(e) => signed matches Err(f) && f == e,
            },
    {
        match signature {
            Ok(s) => {
                let id = sha256_of(s.0.as_slice());
                let mut signed = self;
                signed.id = Base64(vstd::slice::slice_to_vec(id.as_slice()));
                signed.signature = s;
                Ok(signed)
            },
            Err(e) => Err(e),
        }
    }
}

} // verus!
