//! The unlock engine: a user may view a content item once the item before it
//! is completed, viewing completes the item, and the link to the next item
//! is shown only if the user has completed that one too.

use vstd::prelude::*;
use crate::chain::{
    has_item, index_of, item_views, ordered, predecessor_of, successor_of,
    ContentChain, ContentItem, ItemView,
};
use crate::error::AccessError;
use crate::ident::{ItemId, UserId};
use crate::progress::{completed, lemma_marked, marked, CompletionRecord, ProgressStore};

verus! {

/// What a user is shown of an unlocked item: the item, the link back, and
/// the link forward where the user has been there already.
#[derive(Debug, PartialEq, Eq)]
pub struct UnlockedView {
    pub item: ContentItem,
    pub predecessor: Option<ItemId>,
    pub successor: Option<ItemId>,
}

/// What an unlocked view holds, as plain values.
pub struct UnlockedModel {
    pub item: ItemView,
    pub predecessor: Option<ItemId>,
    pub successor: Option<ItemId>,
}

impl View for UnlockedView {
    type V = UnlockedModel;

    open spec fn view(&self) -> UnlockedModel {
        UnlockedModel { item: self.item@, predecessor: self.predecessor, successor: self.successor }
    }
}

/// Whether the user may view the item: it exists, and it is the first in
/// order or the user has completed the one before it.
pub open spec fn eligible(
    items: Seq<ItemView>,
    records: Seq<CompletionRecord>,
    user: UserId,
    id: ItemId,
) -> bool {
    has_item(items, id) && match predecessor_of(items, id) {
        Some(p) => completed(records, user, p.id),
        None => true,
    }
}

/// The link back from an item: to the one before it, if there is one.
pub open spec fn backward_link(items: Seq<ItemView>, id: ItemId) -> Option<ItemId> {
    match predecessor_of(items, id) {
        Some(p) => Some(p.id),
        None => None,
    }
}

/// The link forward from an item: to the one after it, if there is one and
/// the user has completed it.
pub open spec fn forward_link(
    items: Seq<ItemView>,
    records: Seq<CompletionRecord>,
    user: UserId,
    id: ItemId,
) -> Option<ItemId> {
    match successor_of(items, id) {
        Some(s) => if completed(records, user, s.id) {
            Some(s.id)
        } else {
            None
        },
        None => None,
    }
}

/// What the user is shown of an item that it may view.
pub open spec fn unlocked(
    items: Seq<ItemView>,
    records: Seq<CompletionRecord>,
    user: UserId,
    id: ItemId,
) -> UnlockedModel {
    UnlockedModel {
        item: items[index_of(items, id)],
        predecessor: backward_link(items, id),
        successor: forward_link(items, records, user, id),
    }
}

/// For every user, each completed item of the chain is one that the user
/// may view.
pub open spec fn downward_closed(items: Seq<ItemView>, records: Seq<CompletionRecord>) -> bool {
    forall|user: UserId, id: ItemId|
        has_item(items, id) && #[trigger] completed(records, user, id)
            ==> eligible(items, records, user, id)
}

/// Authorizes a user to view an item, and records the view.
///
/// Fails with `NotFound` exactly when the item does not exist, and with
/// `Locked` exactly when it exists and the user may not view it yet; the
/// records are then left as they were. Otherwise the item is marked as
/// completed by the user and the view is returned. Records in which every
/// completed item is one that its user may view stay so.
pub fn authorize(
    chain: &ContentChain,
    progress: &mut ProgressStore,
    user: UserId,
    id: ItemId,
) -> (r: Result<UnlockedView, AccessError>)
    ensures
        match r {
            Ok(view) => {
                &&& eligible(chain@, old(progress)@, user, id)
                &&& view@ == unlocked(chain@, old(progress)@, user, id)
                &&& final(progress)@ == marked(old(progress)@, user, id)
                &&& completed(final(progress)@, user, id)
            },
            Err(e) => {
                &&& !eligible(chain@, old(progress)@, user, id)
                &&& final(progress)@ == old(progress)@
                &&& if has_item(chain@, id) {
                    e is Locked
                } else {
                    e is NotFound
                }
            },
        },
        downward_closed(chain@, old(progress)@) ==> downward_closed(chain@, final(progress)@),
{
    let neighbors = match chain.neighbors(id) {
        Ok(n) => n,
        Err(_) => {
            return Err(AccessError::NotFound);
        },
    };
    let (allowed, predecessor) = match &neighbors.predecessor {
        Some(p) => (progress.has_completed(user, p.id), Some(p.id)),
        None => (true, None),
    };
    if !allowed {
        return Err(AccessError::Locked);
    }
    let successor = match &neighbors.successor {
        Some(s) => if progress.has_completed(user, s.id) {
            Some(s.id)
        } else {
            None
        },
        None => None,
    };
    proof {
        use_type_invariant(&*progress);
        lemma_marked(progress@, user, id);
    }
    progress.mark_completed(user, id);
    Ok(UnlockedView { item: neighbors.item, predecessor, successor })
}

/// The items of the chain that the user has completed, in the order of the
/// chain.
pub open spec fn completed_items(
    items: Seq<ItemView>,
    records: Seq<CompletionRecord>,
    user: UserId,
) -> Seq<ItemView> {
    items.filter(|item: ItemView| completed(records, user, item.id))
}

/// What the index page lists for a user: the completed items, in order, and
/// the item to start from.
#[derive(Debug, PartialEq, Eq)]
pub struct Listing {
    pub completed: Vec<ContentItem>,
    pub first: ContentItem,
}

/// Lists the items that a user has completed, in the order of the chain,
/// together with the first item of the chain. Fails with `NotFound` exactly
/// when the chain is empty.
pub fn listing(
    chain: &ContentChain,
    progress: &ProgressStore,
    user: UserId,
) -> (r: Result<Listing, AccessError>)
    ensures
        match r {
            Ok(list) => {
                &&& chain@.len() > 0
                &&& list.first@ == chain@[0]
                &&& item_views(list.completed@) == completed_items(chain@, progress@, user)
            },
            Err(e) => chain@.len() == 0 && e is NotFound,
        },
{
    let first = match chain.first() {
        Some(item) => item.clone(),
        None => {
            return Err(AccessError::NotFound);
        },
    };
    let ghost keep = |item: ItemView| completed(progress@, user, item.id);
    let mut done: Vec<ContentItem> = Vec::new();
    let n = chain.len();
    let mut i: usize = 0;
    while i < n
        invariant
            n == chain@.len(),
            i <= n,
            keep == |item: ItemView| completed(progress@, user, item.id),
            item_views(done@) == chain@.take(i as int).filter(keep),
        decreases n - i,
    {
        if let Some(item) = chain.get(i) {
            if progress.has_completed(user, item.id) {
                done.push(item.clone());
            }
        }
        proof {
            reveal(Seq::filter);
            let prefix = chain@.take(i + 1);
            assert(prefix.drop_last() =~= chain@.take(i as int));
        }
        i += 1;
    }
    assert(chain@.take(n as int) =~= chain@);
    Ok(Listing { completed: done, first })
}

/// A user without any completion record may view the first item of the
/// chain and no other.
pub proof fn lemma_fresh_user_starts_at_first(
    items: Seq<ItemView>,
    records: Seq<CompletionRecord>,
    user: UserId,
    id: ItemId,
)
    requires
        ordered(items),
        has_item(items, id),
        forall|other: ItemId| !completed(records, user, other),
    ensures
        eligible(items, records, user, id) <==> id == items[0].id,
{
}

/// Once a user has viewed an item, the user may view the item after it.
pub proof fn lemma_view_unlocks_next(
    items: Seq<ItemView>,
    records: Seq<CompletionRecord>,
    user: UserId,
    k: int,
)
    requires
        ordered(items),
        records.no_duplicates(),
        0 <= k,
        k + 1 < items.len(),
    ensures
        eligible(items, marked(records, user, items[k].id), user, items[k + 1].id),
{
    lemma_marked(records, user, items[k].id);
}

/// The link forward from an item is shown exactly when the user has
/// completed the next item; viewing the item itself does not bring it up.
pub proof fn lemma_forward_link_waits(
    items: Seq<ItemView>,
    records: Seq<CompletionRecord>,
    user: UserId,
    k: int,
)
    requires
        ordered(items),
        records.no_duplicates(),
        0 <= k,
        k + 1 < items.len(),
    ensures
        completed(records, user, items[k + 1].id)
            ==> forward_link(items, records, user, items[k].id) == Some(items[k + 1].id),
        !completed(records, user, items[k + 1].id)
            ==> forward_link(items, records, user, items[k].id) is None,
        forward_link(items, marked(records, user, items[k].id), user, items[k].id)
            == forward_link(items, records, user, items[k].id),
{
    lemma_marked(records, user, items[k].id);
}

/// An item that a user may view stays so, whatever is recorded later: there
/// is no way back from unlocked to locked.
pub proof fn lemma_unlocked_stays_unlocked(
    items: Seq<ItemView>,
    records: Seq<CompletionRecord>,
    user: UserId,
    id: ItemId,
    later_user: UserId,
    later_item: ItemId,
)
    requires
        records.no_duplicates(),
        eligible(items, records, user, id),
    ensures
        eligible(items, marked(records, later_user, later_item), user, id),
{
    lemma_marked(records, later_user, later_item);
}

/// Without records, every completed item is one that its user may view:
/// there is none.
pub proof fn lemma_no_records_closed(items: Seq<ItemView>)
    ensures
        downward_closed(items, Seq::<CompletionRecord>::empty()),
{
}

/// Every completed item is one that its user may view, as long as records
/// are added by viewing only.
pub proof fn lemma_views_keep_closure(
    items: Seq<ItemView>,
    records: Seq<CompletionRecord>,
    user: UserId,
    id: ItemId,
)
    requires
        records.no_duplicates(),
        downward_closed(items, records),
        eligible(items, records, user, id),
    ensures
        downward_closed(items, marked(records, user, id)),
{
    let after = marked(records, user, id);
    assert forall|u: UserId, i: ItemId|
        has_item(items, i) && #[trigger] completed(after, u, i) implies eligible(
        items,
        after,
        u,
        i,
    ) by {
        if u == user && i == id {
            lemma_unlocked_stays_unlocked(items, records, user, id, user, id);
        } else {
            assert(completed(records, u, i));
            lemma_unlocked_stays_unlocked(items, records, u, i, user, id);
        }
    }
}

} // verus!
