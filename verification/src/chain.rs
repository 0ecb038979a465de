//! The content chain: content items in the strict total order that their
//! positions give, and the neighbours of an item in that order.

use vstd::prelude::*;
use vstd::string::*;
use crate::error::AccessError;
use crate::ident::ItemId;

verus! {

/// Where the bodies of content items are kept.
pub const CONTENT_ROOT: &'static str = "rsrc/private/";

/// One unit of gated content.
#[derive(Debug, PartialEq, Eq)]
pub struct ContentItem {
    pub id: ItemId,
    pub title: String,
    /// Names the body of the item, relative to the content root.
    pub content_uri: String,
    /// Orders the items; only the relative order matters.
    pub position: i64,
}

/// What a content item holds, as plain values.
pub struct ItemView {
    pub id: ItemId,
    pub title: Seq<char>,
    pub content_uri: Seq<char>,
    pub position: int,
}

impl View for ContentItem {
    type V = ItemView;

    open spec fn view(&self) -> ItemView {
        ItemView {
            id: self.id,
            title: self.title@,
            content_uri: self.content_uri@,
            position: self.position as int,
        }
    }
}

impl Clone for ContentItem {
    fn clone(&self) -> (r: ContentItem)
        ensures
            r == *self,
    {
        ContentItem {
            id: self.id,
            title: self.title.clone(),
            content_uri: self.content_uri.clone(),
            position: self.position,
        }
    }
}

impl ContentItem {
    /// Where the body of the item is read from.
    pub fn body_path(&self) -> (r: String)
        ensures
            r@ == CONTENT_ROOT@ + self@.content_uri,
    {
        let mut path = String::from_str(CONTENT_ROOT);
        path.append(self.content_uri.as_str());
        path
    }
}

/// The views of a sequence of items.
pub open spec fn item_views(items: Seq<ContentItem>) -> Seq<ItemView> {
    Seq::new(items.len(), |i: int| items[i]@)
}

/// The view of an item that may be absent.
pub open spec fn optional_view(item: Option<ContentItem>) -> Option<ItemView> {
    match item {
        Some(it) => Some(it@),
        None => None,
    }
}

/// Positions grow strictly along the sequence, and no identifier occurs twice.
pub open spec fn ordered(items: Seq<ItemView>) -> bool {
    &&& forall|i: int, j: int|
        #![trigger items[i], items[j]]
        0 <= i < j < items.len() ==> items[i].position < items[j].position
    &&& forall|i: int, j: int|
        #![trigger items[i], items[j]]
        0 <= i < j < items.len() ==> items[i].id != items[j].id
}

/// Whether an item with this identifier is in the sequence.
pub open spec fn has_item(items: Seq<ItemView>, id: ItemId) -> bool {
    exists|i: int| 0 <= i < items.len() && (#[trigger] items[i]).id == id
}

/// The place of the item with this identifier, where there is one.
pub open spec fn index_of(items: Seq<ItemView>, id: ItemId) -> int {
    choose|i: int| 0 <= i < items.len() && (#[trigger] items[i]).id == id
}

/// The item just before the one with this identifier; none if that one is
/// the first, or is not there.
pub open spec fn predecessor_of(items: Seq<ItemView>, id: ItemId) -> Option<ItemView> {
    if has_item(items, id) && index_of(items, id) > 0 {
        Some(items[index_of(items, id) - 1])
    } else {
        None
    }
}

/// The item just after the one with this identifier; none if that one is the
/// last, or is not there.
pub open spec fn successor_of(items: Seq<ItemView>, id: ItemId) -> Option<ItemView> {
    if has_item(items, id) && index_of(items, id) + 1 < items.len() {
        Some(items[index_of(items, id) + 1])
    } else {
        None
    }
}

/// Whether the item after the one named `a` is the one named `b`.
pub open spec fn follows(items: Seq<ItemView>, a: ItemId, b: ItemId) -> bool {
    successor_of(items, a) matches Some(s) && s.id == b
}

/// Whether the item before the one named `b` is the one named `a`.
pub open spec fn precedes(items: Seq<ItemView>, a: ItemId, b: ItemId) -> bool {
    predecessor_of(items, b) matches Some(p) && p.id == a
}

/// No item has a position strictly between the two.
pub open spec fn none_between(items: Seq<ItemView>, low: int, high: int) -> bool {
    forall|k: int| 0 <= k < items.len() ==> !(low < (#[trigger] items[k]).position < high)
}

/// No item has a position less than this one.
pub open spec fn none_below(items: Seq<ItemView>, position: int) -> bool {
    forall|k: int| 0 <= k < items.len() ==> position <= (#[trigger] items[k]).position
}

/// No item has a position greater than this one.
pub open spec fn none_above(items: Seq<ItemView>, position: int) -> bool {
    forall|k: int| 0 <= k < items.len() ==> (#[trigger] items[k]).position <= position
}

/// An item together with the items next to it in the chain.
#[derive(Debug, PartialEq, Eq)]
pub struct Neighbors {
    pub item: ContentItem,
    pub predecessor: Option<ContentItem>,
    pub successor: Option<ContentItem>,
}

/// What the neighbours of an item hold, as plain values.
pub struct NeighborsView {
    pub item: ItemView,
    pub predecessor: Option<ItemView>,
    pub successor: Option<ItemView>,
}

impl View for Neighbors {
    type V = NeighborsView;

    open spec fn view(&self) -> NeighborsView {
        NeighborsView {
            item: self.item@,
            predecessor: optional_view(self.predecessor),
            successor: optional_view(self.successor),
        }
    }
}

/// The item with this identifier and the items next to it.
pub open spec fn neighbors_of(items: Seq<ItemView>, id: ItemId) -> NeighborsView {
    NeighborsView {
        item: items[index_of(items, id)],
        predecessor: predecessor_of(items, id),
        successor: successor_of(items, id),
    }
}

/// The content items, ordered by position.
#[derive(Debug)]
pub struct ContentChain {
    items: Vec<ContentItem>,
}

impl View for ContentChain {
    type V = Seq<ItemView>;

    closed spec fn view(&self) -> Seq<ItemView> {
        item_views(self.items@)
    }
}

/// In an ordered sequence an identifier is found at one place only.
pub proof fn lemma_index_of(items: Seq<ItemView>, i: int)
    requires
        ordered(items),
        0 <= i < items.len(),
    ensures
        has_item(items, items[i].id),
        index_of(items, items[i].id) == i,
{
}

/// Adjacency is symmetric: one item is the successor of another exactly
/// when that other is its predecessor.
pub proof fn lemma_adjacency_symmetric(items: Seq<ItemView>, a: ItemId, b: ItemId)
    requires
        ordered(items),
    ensures
        follows(items, a, b) <==> precedes(items, a, b),
{
}

/// The predecessor is the item with the nearest lesser position, and the
/// successor the item with the nearest greater position; an item without
/// one has the least, or the greatest, position of all.
pub proof fn lemma_neighbors_are_nearest(items: Seq<ItemView>, id: ItemId)
    requires
        ordered(items),
        has_item(items, id),
    ensures
        match predecessor_of(items, id) {
            Some(p) => {
                &&& items.contains(p)
                &&& p.position < items[index_of(items, id)].position
                &&& none_between(items, p.position, items[index_of(items, id)].position)
            },
            None => none_below(items, items[index_of(items, id)].position),
        },
        match successor_of(items, id) {
            Some(s) => {
                &&& items.contains(s)
                &&& items[index_of(items, id)].position < s.position
                &&& none_between(items, items[index_of(items, id)].position, s.position)
            },
            None => none_above(items, items[index_of(items, id)].position),
        },
{
}

impl ContentChain {
    /// Holds of every chain: its items are ordered.
    #[verifier::type_invariant]
    pub open spec fn well_formed(self) -> bool {
        ordered(self@)
    }

    /// Makes a chain of items that come ordered by position; refuses items
    /// that are not in strict order, or of which two have one identifier.
    pub fn from_ordered(items: Vec<ContentItem>) -> (r: Option<ContentChain>)
        ensures
            ordered(item_views(items@)) <==> r is Some,
            r matches Some(chain) ==> chain@ == item_views(items@),
    {
        let ghost views = item_views(items@);
        let n = items.len();
        let mut i: usize = 1;
        while i < n
            invariant
                n == items@.len(),
                views == item_views(items@),
                1 <= i,
                forall|a: int, b: int|
                    #![trigger views[a], views[b]]
                    0 <= a < b < i && b < n ==> views[a].position < views[b].position,
            decreases n - i,
        {
            if items[i - 1].position >= items[i].position {
                assert(!(views[i - 1].position < views[i as int].position));
                return None;
            }
            i += 1;
        }
        let mut j: usize = 0;
        while j < n
            invariant
                n == items@.len(),
                views == item_views(items@),
                j <= n,
                forall|a: int, b: int|
                    #![trigger views[a], views[b]]
                    0 <= a < b < n && a < j ==> views[a].id != views[b].id,
            decreases n - j,
        {
            let mut k: usize = j + 1;
            while k < n
                invariant
                    n == items@.len(),
                    views == item_views(items@),
                    j < k <= n,
                    forall|b: int| j < b < k ==> views[j as int].id != (#[trigger] views[b]).id,
                decreases n - k,
            {
                if items[j].id == items[k].id {
                    assert(views[j as int].id == views[k as int].id);
                    return None;
                }
                k += 1;
            }
            j += 1;
        }
        Some(ContentChain { items })
    }

    /// The number of items.
    pub fn len(&self) -> (r: usize)
        ensures
            r == self@.len(),
    {
        self.items.len()
    }

    /// The item at a place in the order.
    pub fn get(&self, index: usize) -> (r: Option<&ContentItem>)
        ensures
            match r {
                Some(item) => index < self@.len() && item@ == self@[index as int],
                None => index >= self@.len(),
            },
    {
        if index < self.items.len() {
            Some(&self.items[index])
        } else {
            None
        }
    }

    /// The first item in order, if there is any item.
    pub fn first(&self) -> (r: Option<&ContentItem>)
        ensures
            match r {
                Some(item) => self@.len() > 0 && item@ == self@[0],
                None => self@.len() == 0,
            },
    {
        self.get(0)
    }

    /// The place of the item with an identifier.
    pub fn position_of(&self, id: ItemId) -> (r: Option<usize>)
        ensures
            match r {
                Some(i) => has_item(self@, id) && i == index_of(self@, id),
                None => !has_item(self@, id),
            },
    {
        proof {
            use_type_invariant(self);
        }
        let mut i: usize = 0;
        while i < self.items.len()
            invariant
                i <= self.items@.len(),
                ordered(self@),
                self@ == item_views(self.items@),
                forall|k: int| 0 <= k < i ==> (#[trigger] self@[k]).id != id,
            decreases self.items@.len() - i,
        {
            if self.items[i].id == id {
                proof {
                    lemma_index_of(self@, i as int);
                }
                return Some(i);
            }
            i += 1;
        }
        None
    }

    /// The item with an identifier and the items next to it in the order.
    /// Fails with `NotFound` exactly when no item has the identifier.
    pub fn neighbors(&self, id: ItemId) -> (r: Result<Neighbors, AccessError>)
        ensures
            match r {
                Ok(n) => has_item(self@, id) && n@ == neighbors_of(self@, id),
                Err(e) => !has_item(self@, id) && e is NotFound,
            },
    {
        match self.position_of(id) {
            None => Err(AccessError::NotFound),
            Some(i) => {
                let n = self.items.len();
                let predecessor = if i > 0 {
                    Some(self.items[i - 1].clone())
                } else {
                    None
                };
                let successor = if i + 1 < n {
                    Some(self.items[i + 1].clone())
                } else {
                    None
                };
                Ok(Neighbors { item: self.items[i].clone(), predecessor, successor })
            },
        }
    }
}

} // verus!
