//! The progress store: which user has completed which content item.
//! Records are only ever added, and adding one that is there changes nothing.

use vstd::prelude::*;
use crate::ident::{ItemId, UserId};

verus! {

/// States that a user has unlocked and viewed a content item.
#[derive(Clone, Copy, Debug, PartialEq, Eq, Structural)]
pub struct CompletionRecord {
    pub user: UserId,
    pub item: ItemId,
}

/// Whether the records say that the user has completed the item.
pub open spec fn completed(records: Seq<CompletionRecord>, user: UserId, item: ItemId) -> bool {
    records.contains(CompletionRecord { user, item })
}

/// The records after the user has been marked as having completed the item.
pub open spec fn marked(records: Seq<CompletionRecord>, user: UserId, item: ItemId) -> Seq<
    CompletionRecord,
> {
    if completed(records, user, item) {
        records
    } else {
        records.push(CompletionRecord { user, item })
    }
}

/// How many records there are for the user and the item.
pub open spec fn record_count(records: Seq<CompletionRecord>, user: UserId, item: ItemId) -> nat {
    records.to_multiset().count(CompletionRecord { user, item })
}

/// Marking keeps the records free of duplicates, keeps every record that was
/// there, and adds no record but the one asked for.
pub proof fn lemma_marked(records: Seq<CompletionRecord>, user: UserId, item: ItemId)
    requires
        records.no_duplicates(),
    ensures
        marked(records, user, item).no_duplicates(),
        completed(marked(records, user, item), user, item),
        forall|u: UserId, i: ItemId|
            #[trigger] completed(marked(records, user, item), u, i) <==> completed(records, u, i)
                || (u == user && i == item),
{
    let after = marked(records, user, item);
    if !completed(records, user, item) {
        assert(after[records.len() as int] == CompletionRecord { user, item });
    }
    assert forall|u: UserId, i: ItemId| completed(records, u, i) implies #[trigger] completed(
        after,
        u,
        i,
    ) by {
        let kept = CompletionRecord { user: u, item: i };
        let k = choose|k: int| 0 <= k < records.len() && records[k] == kept;
        assert(after[k] == kept);
    }
}

/// Marking is idempotent: the second of two calls changes nothing, and after
/// them there is exactly one record for the user and the item.
pub proof fn lemma_mark_twice(records: Seq<CompletionRecord>, user: UserId, item: ItemId)
    requires
        records.no_duplicates(),
    ensures
        marked(marked(records, user, item), user, item) == marked(records, user, item),
        record_count(marked(records, user, item), user, item) == 1,
{
    let after = marked(records, user, item);
    lemma_marked(records, user, item);
    after.to_multiset_ensures();
    after.lemma_multiset_has_no_duplicates();
}

/// The completion records of all users.
#[derive(Debug)]
pub struct ProgressStore {
    records: Vec<CompletionRecord>,
}

impl View for ProgressStore {
    type V = Seq<CompletionRecord>;

    closed spec fn view(&self) -> Seq<CompletionRecord> {
        self.records@
    }
}

impl ProgressStore {
    /// Holds of every store: no record occurs twice.
    #[verifier::type_invariant]
    pub open spec fn well_formed(self) -> bool {
        self@.no_duplicates()
    }

    /// A store without records.
    pub fn new() -> (r: ProgressStore)
        ensures
            r@ == Seq::<CompletionRecord>::empty(),
    {
        ProgressStore { records: Vec::new() }
    }

    /// The number of records.
    pub fn len(&self) -> (r: usize)
        ensures
            r == self@.len(),
    {
        self.records.len()
    }

    /// Whether the user has completed the item.
    pub fn has_completed(&self, user: UserId, item: ItemId) -> (r: bool)
        ensures
            r == completed(self@, user, item),
    {
        let mut i: usize = 0;
        while i < self.records.len()
            invariant
                i <= self.records@.len(),
                forall|k: int|
                    0 <= k < i ==> self.records@[k] != (CompletionRecord { user, item }),
            decreases self.records@.len() - i,
        {
            let record = self.records[i];
            if record.user == user && record.item == item {
                return true;
            }
            i += 1;
        }
        false
    }

    /// Records that the user has completed the item. Where the record is
    /// there already, nothing changes.
    pub fn mark_completed(&mut self, user: UserId, item: ItemId)
        ensures
            final(self)@ == marked(old(self)@, user, item),
    {
        proof {
            use_type_invariant(&*self);
        }
        if !self.has_completed(user, item) {
            let mut records: Vec<CompletionRecord> = Vec::new();
            std::mem::swap(&mut records, &mut self.records);
            records.push(CompletionRecord { user, item });
            self.records = records;
        }
    }
}

} // verus!
