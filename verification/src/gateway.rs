//! The addresses of the gateway's endpoints.

use crate::crypto::base64::{base64url_nopad, encodable, Base64};
use vstd::prelude::*;
use vstd::string::StringExecFns;

verus! {

/// The text of the URL that the `url` crate gives for the reference `path`
/// resolved against the base URL `base`, or `None` where it cannot parse the
/// base or resolve the reference.
pub uninterp spec fn url_joined(base: Seq<char>, path: Seq<char>) -> Option<Seq<char>>;

/// The characters of an optional text.
pub open spec fn opt_text(text: Option<String>) -> Option<Seq<char>> {
    match text {
        Some(t) => Some(t@),
        None => None,
    }
}

/// Parses `base` with `url::Url::parse` and resolves `path` against it with
/// `Url::join`.
/// Trusted: the result is the text of the URL that the crate gives, `None`
/// where either call reports an error.
#[verifier::external_body]
fn join_url(base: &str, path: &str) -> (url: Option<String>)
    ensures
        opt_text(url) == url_joined(base@, path@),
{
    Some(String::from(url::Url::parse(base).ok()?.join(path).ok()?))
}

/// The path under which the price of a transfer to `target` is asked.
pub open spec fn price_path(target: Seq<u8>) -> Seq<char> {
    "price/0/"@ + base64url_nopad(target)
}

/// The address to which transactions are posted: `tx` under the base URL.
pub fn transaction_url(base_url: &str) -> (url: Option<String>)
    ensures
        opt_text(url) == url_joined(base_url@, "tx"@),
{
    join_url(base_url, "tx")
}

/// The address to which chunks are posted: `chunk` under the base URL.
pub fn chunk_url(base_url: &str) -> (url: Option<String>)
    ensures
        opt_text(url) == url_joined(base_url@, "chunk"@),
{
    join_url(base_url, "chunk")
}

/// The address at which the current anchor is fetched: `tx_anchor` under
/// the base URL.
pub fn anchor_url(base_url: &str) -> (url: Option<String>)
    ensures
        opt_text(url) == url_joined(base_url@, "tx_anchor"@),
{
    join_url(base_url, "tx_anchor")
}

/// The address at which the price of a transfer to `target` is asked:
/// `price/0/` and the target's base64url text, under the base URL. `None`
/// where the target is too long to be written as text.
pub fn price_url(base_url: &str, target: &Base64) -> (url: Option<String>)
    ensures
        opt_text(url) == (if encodable(target@) {
            url_joined(base_url@, price_path(target@))
        } else {
            None
        }),
{
    if target.0.len() > usize::MAX / 512 {
        return None;
    }
    let text = target.to_string();
    let path = String::from_str("price/0/").concat(text.as_str());
    join_url(base_url, path.as_str())
}

} // verus!
