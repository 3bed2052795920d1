//! Byte strings and their base64url text form.

use crate::error::Error;
use data_encoding::{BASE64URL, BASE64URL_NOPAD};
use vstd::prelude::*;
use vstd::string::StringSliceAdditionalSpecFns;

verus! {

/// The padded base64url text of `data` (RFC 4648, section 5), as
/// `data_encoding::BASE64URL` writes it.
pub uninterp spec fn base64url(data: Seq<u8>) -> Seq<char>;

/// The unpadded base64url text of `data`, as
/// `data_encoding::BASE64URL_NOPAD` writes it.
pub uninterp spec fn base64url_nopad(data: Seq<u8>) -> Seq<char>;

/// The bytes that `data_encoding::BASE64URL_NOPAD` reads from `text`, or
/// `None` where it rejects the text.
pub uninterp spec fn base64url_nopad_decoded(text: Seq<char>) -> Option<Seq<u8>>;

/// The longest input that the encoder is documented to take without
/// panicking.
pub open spec fn encodable(data: Seq<u8>) -> bool {
    data.len() <= usize::MAX / 512
}

/// Calls `data_encoding::BASE64URL.encode`.
/// Trusted: the result is the padded base64url text of `data`. The encoder
/// may panic on inputs longer than `usize::MAX / 512`.
#[verifier::external_body]
pub(crate) fn encode_base64url(data: &[u8]) -> (text: String)
    requires
        encodable(data@),
    ensures
        text@ == base64url(data@),
{
    BASE64URL.encode(data)
}

/// Calls `data_encoding::BASE64URL_NOPAD.encode`.
/// Trusted: the result is the unpadded base64url text of `data`. The encoder
/// may panic on inputs longer than `usize::MAX / 512`.
#[verifier::external_body]
pub(crate) fn encode_base64url_nopad(data: &[u8]) -> (text: String)
    requires
        encodable(data@),
    ensures
        text@ == base64url_nopad(data@),
{
    BASE64URL_NOPAD.encode(data)
}

/// Calls `data_encoding::BASE64URL_NOPAD.decode` on the bytes of `text`.
/// Trusted: the result is what the decoder reads, `None` where it reports an
/// error. The decoder may panic on texts longer than `usize::MAX / 8` bytes.
#[verifier::external_body]
pub(crate) fn decode_base64url_nopad(text: &str) -> (data: Option<Vec<u8>>)
    requires
        text.spec_bytes().len() <= usize::MAX / 8,
    ensures
        data matches Some(bytes) ==> base64url_nopad_decoded(text@) == Some(bytes@),
        data is None ==> base64url_nopad_decoded(text@) is None,
{
    BASE64URL_NOPAD.decode(text.as_bytes()).ok()
}

/// A byte string whose text form is unpadded base64url.
#[derive(Debug, PartialEq, Eq)]
pub struct Base64(pub Vec<u8>);

impl View for Base64 {
    type V = Seq<u8>;

    open spec fn view(&self) -> Seq<u8> {
        self.0@
    }
}

impl Clone for Base64 {
    fn clone(&self) -> (copy: Self)
        ensures
            copy@ == self@,
    {
        Base64(self.0.clone())
    }
}

impl Default for Base64 {
    fn default() -> (empty: Self)
        ensures
            empty@ == Seq::<u8>::empty(),
    {
        Base64(Vec::new())
    }
}

impl Base64 {
    /// Whether the byte string has no bytes.
    pub fn is_empty(&self) -> (empty: bool)
        ensures
            empty == (self@.len() == 0),
    {
        self.0.len() == 0
    }

    /// The UTF-8 bytes of `text`, taken as they are.
    pub fn from_utf8_str(text: &str) -> (bytes: Self)
        ensures
            bytes@ == text.spec_bytes(),
    {
        Base64(vstd::slice::slice_to_vec(text.as_bytes()))
    }

    /// The unpadded base64url text of the bytes.
    pub fn to_string(&self) -> (text: String)
        requires
            encodable(self@),
        ensures
            text@ == base64url_nopad(self@),
    {
        encode_base64url_nopad(self.0.as_slice())
    }

    /// Reads unpadded base64url text. Fails with `EncodingError` where the
    /// text is not valid base64url, or is too long to be decoded.
    pub fn from_str(text: &str) -> (bytes: Result<Self, Error>)
        ensures
            match bytes {
                Ok(b) => text.spec_bytes().len() <= usize::MAX / 8 && base64url_nopad_decoded(
                    text@,
                ) == Some(b@),
                Err(e) => e == Error::EncodingError && (text.spec_bytes().len() > usize::MAX / 8
                    || base64url_nopad_decoded(text@) is None),
            },
    {
        if text.as_bytes().len() > usize::MAX / 8 {
            return Err(Error::EncodingError);
        }
        match decode_base64url_nopad(text) {
            Some(data) => Ok(Base64(data)),
            None => Err(Error::EncodingError),
        }
    }
}

/// Whether two byte strings hold the same bytes.
pub fn same_bytes(left: &[u8], right: &[u8]) -> (same: bool)
    ensures
        same == (left@ == right@),
{
    if left.len() != right.len() {
        return false;
    }
    let mut i: usize = 0;
    while i < left.len()
        invariant
            i <= left.len(),
            left.len() == right.len(),
            forall|j: int| 0 <= j < i ==> left@[j] == right@[j],
        decreases left.len() - i,
    {
        if left[i] != right[i] {
            return false;
        }
        i += 1;
    }
    assert(left@ =~= right@);
    true
}

} // verus!
