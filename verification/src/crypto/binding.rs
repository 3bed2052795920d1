//! What the deep hash commits to: two values of like shape with one deep
//! hash are one value, unless SHA-384 itself collides.

use crate::crypto::hash::{
    blob_tag, decimal, deep_hash_fold, deep_hash_of, list_tag, list_word, sha384, Item,
};
use vstd::prelude::*;

verus! {

/// Whether two different byte strings with one SHA-384 digest exist.
pub open spec fn sha384_collision() -> bool {
    exists|a: Seq<u8>, b: Seq<u8>| a != b && #[trigger] sha384(a) == #[trigger] sha384(b)
}

/// Two values are alike where a byte string stands against a byte string
/// and a list against a list, at every place that both have.
pub open spec fn alike(a: Item, b: Item) -> bool
    decreases a,
{
    match a {
        Item::Blob(_) => b is Blob,
        Item::List(x) => b is List && forall|i: int|
            0 <= i < x.len() && i < b->List_0.len() ==> alike(#[trigger] x[i], b->List_0[i]),
    }
}

/// A value is bounded where each of its lists has a length that a `u64`
/// holds.
pub open spec fn bounded(a: Item) -> bool
    decreases a,
{
    match a {
        Item::Blob(_) => true,
        Item::List(x) => x.len() <= u64::MAX && forall|i: int|
            0 <= i < x.len() ==> bounded(#[trigger] x[i]),
    }
}

/// Ten to the power `k`.
pub open spec fn pow10(k: nat) -> nat
    decreases k,
{
    if k == 0 {
        1
    } else {
        10 * pow10((k - 1) as nat)
    }
}

/// A decimal has at least one digit, and a number below `10^k` at most `k`.
pub proof fn lemma_decimal_len(n: nat, k: nat)
    requires
        k >= 1,
        n < pow10(k),
    ensures
        1 <= decimal(n).len() <= k,
    decreases k,
{
    reveal_with_fuel(pow10, 2);
    if n >= 10 {
        assert(k >= 2);
        lemma_decimal_len(n / 10, (k - 1) as nat);
    }
}

/// A decimal has at least one digit.
pub proof fn lemma_decimal_nonempty(n: nat)
    ensures
        decimal(n).len() >= 1,
    decreases n,
{
    if n >= 10 {
        lemma_decimal_nonempty(n / 10);
    }
}

/// The decimal of a number that a `u64` holds has at most 20 digits.
pub proof fn lemma_decimal_len_u64(n: nat)
    requires
        n <= u64::MAX,
    ensures
        1 <= decimal(n).len() <= 20,
{
    reveal_with_fuel(pow10, 21);
    assert(pow10(20) == 100_000_000_000_000_000_000nat);
    lemma_decimal_len(n, 20);
}

/// A larger number has no shorter decimal.
pub proof fn lemma_decimal_len_monotone(a: nat, b: nat)
    requires
        a <= b,
    ensures
        decimal(a).len() <= decimal(b).len(),
    decreases b,
{
    lemma_decimal_nonempty(b);
    if a >= 10 {
        lemma_decimal_len_monotone(a / 10, b / 10);
    }
}

/// Different numbers have different decimals.
pub proof fn lemma_decimal_injective(a: nat, b: nat)
    requires
        decimal(a) == decimal(b),
    ensures
        a == b,
    decreases a,
{
    lemma_decimal_nonempty(a / 10);
    lemma_decimal_nonempty(b / 10);
    if a < 10 && b < 10 {
        assert(decimal(a)[0] == (48 + a) as u8);
        assert(decimal(b)[0] == (48 + b) as u8);
    } else if a >= 10 && b >= 10 {
        let da = decimal(a / 10);
        let db = decimal(b / 10);
        assert(decimal(a).drop_last() =~= da);
        assert(decimal(b).drop_last() =~= db);
        assert(decimal(a).last() == (48 + a % 10) as u8);
        assert(decimal(b).last() == (48 + b % 10) as u8);
        lemma_decimal_injective(a / 10, b / 10);
        assert(a == 10 * (a / 10) + a % 10);
        assert(b == 10 * (b / 10) + b % 10);
    } else if a >= 10 {
        assert(decimal(a).len() == decimal(a / 10).len() + 1);
        assert(decimal(b).len() == 1);
    } else {
        assert(decimal(b).len() == decimal(b / 10).len() + 1);
        assert(decimal(a).len() == 1);
    }
}

/// Byte strings with one tagged form are one byte string: the tag tells the
/// length, so no byte string's tagged form begins another's.
pub proof fn lemma_blob_binds(a: Seq<u8>, b: Seq<u8>)
    requires
        blob_tag(a.len()) + a == blob_tag(b.len()) + b,
    ensures
        a == b,
{
    let ta = blob_tag(a.len());
    let tb = blob_tag(b.len());
    assert((ta + a).len() == (tb + b).len());
    if a.len() < b.len() {
        lemma_decimal_len_monotone(a.len(), b.len());
    } else if b.len() < a.len() {
        lemma_decimal_len_monotone(b.len(), a.len());
    }
    assert(a.len() == b.len());
    assert forall|i: int| 0 <= i < a.len() implies a[i] == b[i] by {
        assert(a[i] == (ta + a)[ta.len() + i]);
        assert(b[i] == (tb + b)[tb.len() + i]);
    }
    assert(a =~= b);
}

/// Inputs with one SHA-384 digest are one input, or SHA-384 collides.
pub proof fn lemma_sha384_binds(a: Seq<u8>, b: Seq<u8>)
    requires
        sha384(a)@ == sha384(b)@,
    ensures
        a == b || sha384_collision(),
{
    assert(sha384(a) =~= sha384(b));
}

/// Every deep hash, and every accumulator of one, has 48 bytes.
pub proof fn lemma_deep_hash_len(item: Item, n: nat)
    ensures
        deep_hash_of(item).len() == 48,
        item is List ==> deep_hash_fold(item->List_0, n).len() == 48,
{
    match item {
        Item::Blob(bytes) => {},
        Item::List(children) => {
            assert(deep_hash_fold(children, 0).len() == 48);
        },
    }
}

/// Accumulators of two lists of alike elements that are equal were folded
/// from lists of one length over as many elements, and the elements folded
/// are the same, or SHA-384 collides.
pub proof fn lemma_fold_binds(x: Seq<Item>, y: Seq<Item>, n: nat, m: nat)
    requires
        n <= x.len() <= u64::MAX,
        m <= y.len() <= u64::MAX,
        forall|i: int| 0 <= i < x.len() && i < y.len() ==> alike(#[trigger] x[i], y[i]),
        forall|i: int| 0 <= i < x.len() ==> bounded(#[trigger] x[i]),
        forall|i: int| 0 <= i < y.len() ==> bounded(#[trigger] y[i]),
        deep_hash_fold(x, n) == deep_hash_fold(y, m),
    ensures
        sha384_collision() || (n == m && x.len() == y.len() && forall|i: int|
            0 <= i < n ==> #[trigger] x[i] == y[i]),
    decreases x, n,
{
    lemma_decimal_len_u64(x.len());
    lemma_decimal_len_u64(y.len());
    if n == 0 && m == 0 {
        lemma_sha384_binds(list_tag(x.len()), list_tag(y.len()));
        if list_tag(x.len()) == list_tag(y.len()) {
            let dx = decimal(x.len());
            let dy = decimal(y.len());
            assert(list_word().len() == 4);
            assert(list_tag(x.len()).len() == 4 + dx.len());
            assert(list_tag(y.len()).len() == 4 + dy.len());
            assert forall|i: int| 0 <= i < dx.len() implies dx[i] == dy[i] by {
                assert(dx[i] == list_tag(x.len())[4 + i]);
                assert(dy[i] == list_tag(y.len())[4 + i]);
            }
            assert(dx =~= dy);
            lemma_decimal_injective(x.len(), y.len());
        }
    } else if n == 0 {
        let last = deep_hash_fold(y, (m - 1) as nat) + deep_hash_of(y[m - 1]);
        lemma_deep_hash_len(Item::List(y), (m - 1) as nat);
        lemma_deep_hash_len(y[m - 1], 0);
        lemma_sha384_binds(list_tag(x.len()), last);
        assert(list_tag(x.len()).len() != last.len());
    } else if m == 0 {
        let last = deep_hash_fold(x, (n - 1) as nat) + deep_hash_of(x[n - 1]);
        lemma_deep_hash_len(Item::List(x), (n - 1) as nat);
        lemma_deep_hash_len(x[n - 1], 0);
        lemma_sha384_binds(last, list_tag(y.len()));
        assert(list_tag(y.len()).len() != last.len());
    } else {
        let ax = deep_hash_fold(x, (n - 1) as nat);
        let ay = deep_hash_fold(y, (m - 1) as nat);
        let hx = deep_hash_of(x[n - 1]);
        let hy = deep_hash_of(y[m - 1]);
        lemma_deep_hash_len(Item::List(x), (n - 1) as nat);
        lemma_deep_hash_len(Item::List(y), (m - 1) as nat);
        lemma_deep_hash_len(x[n - 1], 0);
        lemma_deep_hash_len(y[m - 1], 0);
        lemma_sha384_binds(ax + hx, ay + hy);
        if ax + hx == ay + hy {
            assert(ax =~= (ax + hx).subrange(0, 48));
            assert(ay =~= (ay + hy).subrange(0, 48));
            assert(hx =~= (ax + hx).subrange(48, 96));
            assert(hy =~= (ay + hy).subrange(48, 96));
            lemma_fold_binds(x, y, (n - 1) as nat, (m - 1) as nat);
            if !sha384_collision() {
                assert(n == m);
                lemma_deep_hash_binds(x[n - 1], y[n - 1]);
            }
        }
    }
}

/// The deep hash binds: alike values with one deep hash are one value, or
/// SHA-384 collides.
pub proof fn lemma_deep_hash_binds(a: Item, b: Item)
    requires
        alike(a, b),
        bounded(a),
        bounded(b),
        deep_hash_of(a) == deep_hash_of(b),
    ensures
        a == b || sha384_collision(),
    decreases a, 0nat,
{
    match a {
        Item::Blob(bytes) => {
            let other = b->Blob_0;
            lemma_sha384_binds(blob_tag(bytes.len()) + bytes, blob_tag(other.len()) + other);
            if blob_tag(bytes.len()) + bytes == blob_tag(other.len()) + other {
                lemma_blob_binds(bytes, other);
            }
        },
        Item::List(x) => {
            let y = b->List_0;
            lemma_fold_binds(x, y, x.len(), y.len());
            if !sha384_collision() {
                assert(x =~= y);
            }
        },
    }
}

} // verus!
