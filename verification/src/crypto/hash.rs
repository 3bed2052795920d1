//! SHA-2 digests and the deep hash: a tagged, length-prefixed, order-folding
//! hash over arbitrarily nested byte strings.

use sha2::Digest;
use vstd::prelude::*;

verus! {

/// The SHA-384 digest of `data`, as the `sha2` crate computes it.
pub uninterp spec fn sha384(data: Seq<u8>) -> [u8; 48];

/// The SHA-256 digest of `data`, as the `sha2` crate computes it.
pub uninterp spec fn sha256(data: Seq<u8>) -> [u8; 32];

/// Feeds `first` and then `second` to `sha2::Sha384` and finalizes it.
/// Trusted: the digest is the SHA-384 of the two inputs joined.
#[verifier::external_body]
pub(crate) fn sha384_of(first: &[u8], second: &[u8]) -> (digest: [u8; 48])
    ensures
        digest == sha384(first@ + second@),
{
    let mut hasher = sha2::Sha384::new();
    hasher.update(first);
    hasher.update(second);
    let mut digest = [0u8; 48];
    digest.copy_from_slice(&hasher.finalize());
    digest
}

/// Feeds `data` to `sha2::Sha256` and finalizes it.
/// Trusted: the digest is the SHA-256 of `data`.
#[verifier::external_body]
pub(crate) fn sha256_of(data: &[u8]) -> (digest: [u8; 32])
    ensures
        digest == sha256(data@),
{
    let mut hasher = sha2::Sha256::new();
    hasher.update(data);
    let mut digest = [0u8; 32];
    digest.copy_from_slice(&hasher.finalize());
    digest
}

/// A value to be deep-hashed, as a mathematical tree.
pub enum Item {
    /// A raw byte string.
    Blob(Seq<u8>),
    /// An ordered sequence of values.
    List(Seq<Item>),
}

/// A value to be deep-hashed: a byte string, or an ordered list of such values.
#[derive(Debug, PartialEq, Eq)]
pub enum DeepHashItem {
    Blob(Vec<u8>),
    List(Vec<DeepHashItem>),
}

impl View for DeepHashItem {
    type V = Item;

    open spec fn view(&self) -> Item
        decreases self,
    {
        match self {
            DeepHashItem::Blob(bytes) => Item::Blob(bytes@),
            DeepHashItem::List(children) => Item::List(
                Seq::new(
                    children@.len(),
                    |i: int|
                        if 0 <= i < children@.len() {
                            children@[i].view()
                        } else {
                            Item::Blob(Seq::empty())
                        },
                ),
            ),
        }
    }
}

impl DeepHashItem {
    /// A list whose elements have the views `expected` has the view
    /// `Item::List(expected)`.
    pub proof fn lemma_list_view(children: Vec<DeepHashItem>, expected: Seq<Item>)
        requires
            children@.len() == expected.len(),
            forall|j: int| 0 <= j < expected.len() ==> (#[trigger] children@[j])@ == expected[j],
        ensures
            DeepHashItem::List(children)@ == Item::List(expected),
    {
        let item = DeepHashItem::List(children);
        assert(item@->List_0 =~= expected);
    }
}

/// The ASCII decimal digits of `n`, most significant first, without leading
/// zeros (`0` is "0").
pub open spec fn decimal(n: nat) -> Seq<u8>
    decreases n,
{
    if n < 10 {
        seq![(48 + n) as u8]
    } else {
        decimal(n / 10).push((48 + n % 10) as u8)
    }
}

/// The ASCII bytes of "blob".
pub open spec fn blob_word() -> Seq<u8> {
    seq![0x62u8, 0x6c, 0x6f, 0x62]
}

/// The ASCII bytes of "list".
pub open spec fn list_word() -> Seq<u8> {
    seq![0x6cu8, 0x69, 0x73, 0x74]
}

/// The tag of a byte string of `len` bytes: "blob" and the decimal length.
pub open spec fn blob_tag(len: nat) -> Seq<u8> {
    blob_word() + decimal(len)
}

/// The tag of a list of `len` elements: "list" and the decimal length.
pub open spec fn list_tag(len: nat) -> Seq<u8> {
    list_word() + decimal(len)
}

/// The deep hash of `item`.
///
/// A byte string hashes to `SHA-384(blob_tag ‖ bytes)`. A list starts from
/// `SHA-384(list_tag)` and folds each element, in order, as
/// `SHA-384(acc ‖ deep_hash(element))`.
pub open spec fn deep_hash_of(item: Item) -> Seq<u8>
    decreases item, 0nat,
{
    match item {
        Item::Blob(bytes) => sha384(blob_tag(bytes.len()) + bytes)@,
        Item::List(children) => deep_hash_fold(children, children.len()),
    }
}

/// The accumulator of a list's deep hash after its first `n` elements.
pub open spec fn deep_hash_fold(children: Seq<Item>, n: nat) -> Seq<u8>
    decreases children, n,
{
    if n == 0 || n > children.len() {
        sha384(list_tag(children.len()))@
    } else {
        sha384(
            deep_hash_fold(children, (n - 1) as nat) + deep_hash_of(children[n - 1]),
        )@
    }
}

/// The decimal digits of `n` as ASCII bytes.
pub fn decimal_of(n: u64) -> (text: Vec<u8>)
    ensures
        text@ == decimal(n as nat),
    decreases n,
{
    if n < 10 {
        let mut text: Vec<u8> = Vec::new();
        text.push(48 + n as u8);
        text
    } else {
        let mut text = decimal_of(n / 10);
        text.push(48 + (n % 10) as u8);
        text
    }
}

/// The tag of a list, or of a byte string, of `len` elements.
fn tag_of(list: bool, len: usize) -> (tag: Vec<u8>)
    ensures
        tag@ == (if list { list_tag(len as nat) } else { blob_tag(len as nat) }),
{
    let mut tag: Vec<u8> = Vec::new();
    if list {
        tag.push(0x6c);
        tag.push(0x69);
        tag.push(0x73);
        tag.push(0x74);
    } else {
        tag.push(0x62);
        tag.push(0x6c);
        tag.push(0x6f);
        tag.push(0x62);
    }
    let mut digits = decimal_of(len as u64);
    tag.append(&mut digits);
    tag
}

/// Computes the deep hash of `item`.
pub fn deep_hash(item: &DeepHashItem) -> (digest: [u8; 48])
    ensures
        digest@ == deep_hash_of(item@),
    decreases item,
{
    let empty: Vec<u8> = Vec::new();
    match item {
        DeepHashItem::Blob(bytes) => {
            let tag = tag_of(false, bytes.len());
            sha384_of(tag.as_slice(), bytes.as_slice())
        },
        DeepHashItem::List(children) => {
            let tag = tag_of(true, children.len());
            let mut acc = sha384_of(tag.as_slice(), empty.as_slice());
            let mut i: usize = 0;
            assert(tag@ + empty@ =~= tag@);
            while i < children.len()
                invariant
                    i <= children.len(),
                    item@->List_0.len() == children@.len(),
                    forall|j: int| 0 <= j < children@.len() ==> item@->List_0[j] == children@[j]@,
                    acc@ == deep_hash_fold(item@->List_0, i as nat),
                    forall|j: int| 0 <= j < children@.len() ==> decreases_to!(item => children@[j]),
                decreases children.len() - i,
            {
                let child = deep_hash(&children[i]);
                acc = sha384_of(acc.as_slice(), child.as_slice());
                i += 1;
            }
            acc
        },
    }
}

} // verus!
