//! The errors of the library.

use vstd::prelude::*;
use vstd::string::StringExecFns;

verus! {

/// What can go wrong while signing, verifying or publishing a transaction.
#[derive(Debug, Clone, PartialEq, Eq)]
pub enum Error {
    /// The operation needs a signature (or an id) that the transaction does
    /// not carry.
    UnsignedTransaction,
    /// The signature does not match the transaction under its owner's key.
    InvalidSignature,
    /// A field could not be put into canonical form.
    EncodingError,
    /// Signing was attempted on a provider that holds no private key.
    KeyUnavailable,
    /// The private key was refused by the RSA backend.
    SigningFailed,
    /// The gateway never answered with success within the retry bound.
    StatusCodeNotOk,
    /// At least one chunk exhausted its retries.
    ChunkUploadFailed,
    /// The price of an upload could not be fetched.
    ArweaveGetPriceError(String),
}

impl Error {
    /// What the error says.
    pub open spec fn message(self) -> Seq<char> {
        match self {
            Error::UnsignedTransaction => "transaction is not signed"@,
            Error::InvalidSignature => "invalid signature"@,
            Error::EncodingError => "field could not be encoded"@,
            Error::KeyUnavailable => "no private key available"@,
            Error::SigningFailed => "the key was refused for signing"@,
            Error::StatusCodeNotOk => "status code not ok"@,
            Error::ChunkUploadFailed => "chunk upload failed"@,
            Error::ArweaveGetPriceError(reason) => "could not get the price: "@ + reason@,
        }
    }

    /// What the error says, as text.
    pub fn to_string(&self) -> (text: String)
        ensures
            text@ == self.message(),
    {
        match self {
            Error::UnsignedTransaction => String::from_str("transaction is not signed"),
            Error::InvalidSignature => String::from_str("invalid signature"),
            Error::EncodingError => String::from_str("field could not be encoded"),
            Error::KeyUnavailable => String::from_str("no private key available"),
            Error::SigningFailed => String::from_str("the key was refused for signing"),
            Error::StatusCodeNotOk => String::from_str("status code not ok"),
            Error::ChunkUploadFailed => String::from_str("chunk upload failed"),
            Error::ArweaveGetPriceError(reason) => String::from_str(
                "could not get the price: ",
            ).concat(reason.as_str()),
        }
    }
}

} // verus!
