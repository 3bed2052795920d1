//! Transaction tags: name/value pairs of byte strings.

use crate::crypto::base64::Base64;
use crate::crypto::hash::{DeepHashItem, Item};
use vstd::prelude::*;
use vstd::string::StringSliceAdditionalSpecFns;

verus! {

/// A tag: a name and a value, both byte strings.
#[derive(Debug, Clone, PartialEq, Eq)]
pub struct Tag {
    pub name: Base64,
    pub value: Base64,
}

impl View for Tag {
    type V = (Seq<u8>, Seq<u8>);

    open spec fn view(&self) -> (Seq<u8>, Seq<u8>) {
        (self.name@, self.value@)
    }
}

/// The canonical form of a tag: the list of its name and its value.
pub open spec fn tag_item(tag: (Seq<u8>, Seq<u8>)) -> Item {
    Item::List(seq![Item::Blob(tag.0), Item::Blob(tag.1)])
}

/// The canonical form of a sequence of tags: the list of their canonical
/// forms, in order.
pub open spec fn tags_item(tags: Seq<(Seq<u8>, Seq<u8>)>) -> Item {
    Item::List(Seq::new(tags.len(), |i: int| tag_item(tags[i])))
}

impl Tag {
    /// A tag whose name and value are the UTF-8 bytes of two texts.
    pub fn from_utf8_strs(name: &str, value: &str) -> (tag: Tag)
        ensures
            tag@ == (name.spec_bytes(), value.spec_bytes()),
    {
        Tag { name: Base64::from_utf8_str(name), value: Base64::from_utf8_str(value) }
    }

    /// The canonical form of the tag.
    pub fn to_deep_hash_item(&self) -> (item: DeepHashItem)
        ensures
            item@ == tag_item(self@),
    {
        let mut pair: Vec<DeepHashItem> = Vec::new();
        pair.push(DeepHashItem::Blob(self.name.0.clone()));
        pair.push(DeepHashItem::Blob(self.value.0.clone()));
        proof {
            DeepHashItem::lemma_list_view(
                pair,
                seq![Item::Blob(self.name@), Item::Blob(self.value@)],
            );
        }
        DeepHashItem::List(pair)
    }
}

/// The views of a vector of tags.
pub open spec fn tags_view(tags: Seq<Tag>) -> Seq<(Seq<u8>, Seq<u8>)> {
    Seq::new(tags.len(), |i: int| tags[i]@)
}

/// The canonical form of a vector of tags.
pub fn tags_to_deep_hash_item(tags: &Vec<Tag>) -> (item: DeepHashItem)
    ensures
        item@ == tags_item(tags_view(tags@)),
{
    let mut items: Vec<DeepHashItem> = Vec::new();
    let mut i: usize = 0;
    while i < tags.len()
        invariant
            i <= tags.len(),
            items@.len() == i,
            forall|j: int| 0 <= j < i ==> (#[trigger] items@[j])@ == tag_item(tags@[j]@),
        decreases tags.len() - i,
    {
        let item = tags[i].to_deep_hash_item();
        items.push(item);
        i += 1;
    }
    proof {
        let views = tags_view(tags@);
        DeepHashItem::lemma_list_view(items, Seq::new(views.len(), |i: int| tag_item(views[i])));
    }
    DeepHashItem::List(items)
}

} // verus!
