//! What a signature commits to: the signing message is a function of the
//! signed fields alone, and it tells them apart unless SHA-384 collides.

use crate::crypto::binding::{
    alike, bounded, lemma_decimal_injective, lemma_deep_hash_binds, sha384_collision,
};
use crate::transaction::tags::{tag_item, tags_item};
use crate::transaction::{Tx, TxView};
use vstd::prelude::*;

verus! {

impl TxView {
    /// Whether two transactions agree in every field that is signed: the
    /// format, owner, target, quantity, fee, anchor, tags in their order,
    /// declared size, and the payload field of their format.
    pub open spec fn same_signed_fields(self, other: TxView) -> bool {
        &&& self.format == other.format
        &&& self.owner == other.owner
        &&& self.target == other.target
        &&& self.quantity == other.quantity
        &&& self.reward == other.reward
        &&& self.last_tx == other.last_tx
        &&& self.tags == other.tags
        &&& self.data_size == other.data_size
        &&& self.signed_payload() == other.signed_payload()
    }
}

/// The signing message is determined by the signed fields: transactions
/// that agree in them have one canonical form and one signing message,
/// however else they differ.
pub proof fn lemma_signing_message_determined(a: TxView, b: TxView)
    requires
        a.same_signed_fields(b),
    ensures
        a.signing_item() == b.signing_item(),
        a.signing_message() == b.signing_message(),
{
}

/// The canonical forms of two transactions are alike and bounded.
proof fn lemma_signing_items_alike(a: Tx, b: Tx)
    ensures
        alike(a@.signing_item(), b@.signing_item()),
        bounded(a@.signing_item()),
        bounded(b@.signing_item()),
{
    reveal_with_fuel(alike, 4);
    reveal_with_fuel(bounded, 4);
    let ta = tags_item(a@.tags);
    let tb = tags_item(b@.tags);
    assert(a.tags@.len() == a.tags.len() && b.tags@.len() == b.tags.len());
    assert forall|i: int| 0 <= i < ta->List_0.len() implies bounded(#[trigger] ta->List_0[i]) by {
        assert(ta->List_0[i] == tag_item(a@.tags[i]));
    }
    assert forall|i: int| 0 <= i < tb->List_0.len() implies bounded(#[trigger] tb->List_0[i]) by {
        assert(tb->List_0[i] == tag_item(b@.tags[i]));
    }
    assert forall|i: int| 0 <= i < ta->List_0.len() && i < tb->List_0.len() implies alike(
        #[trigger] ta->List_0[i],
        tb->List_0[i],
    ) by {
        assert(ta->List_0[i] == tag_item(a@.tags[i]));
        assert(tb->List_0[i] == tag_item(b@.tags[i]));
    }
    assert(alike(ta, tb));
    assert(bounded(ta));
    assert(bounded(tb));
}

/// The canonical form tells the signed fields apart.
proof fn lemma_signing_item_injective(a: TxView, b: TxView)
    requires
        a.signing_item() == b.signing_item(),
    ensures
        a.same_signed_fields(b),
{
    let x = a.signing_item()->List_0;
    let y = b.signing_item()->List_0;
    assert(x[0] == y[0] && x[1] == y[1] && x[2] == y[2] && x[3] == y[3] && x[4] == y[4] && x[5]
        == y[5] && x[6] == y[6] && x[7] == y[7] && x[8] == y[8]);
    lemma_decimal_injective(a.format as nat, b.format as nat);
    lemma_decimal_injective(a.quantity as nat, b.quantity as nat);
    lemma_decimal_injective(a.reward as nat, b.reward as nat);
    lemma_decimal_injective(a.data_size as nat, b.data_size as nat);
    let ta = tags_item(a.tags)->List_0;
    let tb = tags_item(b.tags)->List_0;
    assert(ta == tb);
    assert(ta.len() == a.tags.len() && tb.len() == b.tags.len());
    assert forall|i: int| 0 <= i < a.tags.len() implies a.tags[i] == b.tags[i] by {
        assert(ta[i] == tag_item(a.tags[i]));
        assert(tb[i] == tag_item(b.tags[i]));
        let pa = tag_item(a.tags[i])->List_0;
        let pb = tag_item(b.tags[i])->List_0;
        assert(pa[0] == pb[0] && pa[1] == pb[1]);
    }
    assert(a.tags =~= b.tags);
}

/// The signing message binds the signed fields: transactions with one
/// signing message agree in every signed field, or SHA-384 collides.
pub proof fn lemma_signing_message_binds(a: Tx, b: Tx)
    requires
        a@.signing_message() == b@.signing_message(),
    ensures
        a@.same_signed_fields(b@) || sha384_collision(),
{
    lemma_signing_items_alike(a, b);
    lemma_deep_hash_binds(a@.signing_item(), b@.signing_item());
    if a@.signing_item() == b@.signing_item() {
        lemma_signing_item_injective(a@, b@);
    }
}

/// The order of the tags is signed: two transactions that differ only in
/// the order of their tags, and whose tags so ordered are not the same
/// sequence, have different signing messages, or SHA-384 collides.
pub proof fn lemma_tag_order_is_signed(a: Tx, b: Tx)
    requires
        b@ == (TxView { tags: b@.tags, ..a@ }),
        a@.tags.to_multiset() == b@.tags.to_multiset(),
        a@.tags != b@.tags,
    ensures
        a@.signing_message() != b@.signing_message() || sha384_collision(),
{
    if a@.signing_message() == b@.signing_message() {
        lemma_signing_message_binds(a, b);
    }
}

/// An empty field is signed as an empty byte string and a missing tag is
/// not an empty tag: a transaction without tags and one with a single tag
/// of empty name and value have different signing messages, or SHA-384
/// collides.
pub proof fn lemma_empty_is_not_missing(a: Tx, b: Tx)
    requires
        a@.tags.len() == 0,
        b@.tags == seq![(Seq::<u8>::empty(), Seq::<u8>::empty())],
    ensures
        a@.signing_message() != b@.signing_message() || sha384_collision(),
{
    if a@.signing_message() == b@.signing_message() {
        lemma_signing_message_binds(a, b);
    }
}

} // verus!
