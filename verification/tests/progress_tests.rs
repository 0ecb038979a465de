use progressive_unlock::ident::{ItemId, UserId};
use progressive_unlock::progress::ProgressStore;

#[test]
fn fresh_store_has_no_completion() {
    let store = ProgressStore::new();
    assert_eq!(store.len(), 0);
    assert!(!store.has_completed(UserId(1), ItemId(1)));
}

#[test]
fn marked_item_is_completed() {
    let mut store = ProgressStore::new();
    store.mark_completed(UserId(1), ItemId(7));
    assert!(store.has_completed(UserId(1), ItemId(7)));
    assert_eq!(store.len(), 1);
}

#[test]
fn marking_twice_leaves_one_record() {
    let mut store = ProgressStore::new();
    store.mark_completed(UserId(1), ItemId(7));
    store.mark_completed(UserId(1), ItemId(7));
    assert_eq!(store.len(), 1);
    assert!(store.has_completed(UserId(1), ItemId(7)));
}

#[test]
fn marking_again_later_changes_nothing() {
    let mut store = ProgressStore::new();
    store.mark_completed(UserId(1), ItemId(7));
    store.mark_completed(UserId(1), ItemId(8));
    store.mark_completed(UserId(2), ItemId(7));
    store.mark_completed(UserId(1), ItemId(7));
    assert_eq!(store.len(), 3);
}

#[test]
fn completion_is_per_user_and_per_item() {
    let mut store = ProgressStore::new();
    store.mark_completed(UserId(1), ItemId(7));
    assert!(!store.has_completed(UserId(2), ItemId(7)));
    assert!(!store.has_completed(UserId(1), ItemId(8)));
    assert!(!store.has_completed(UserId(7), ItemId(1)));
    store.mark_completed(UserId(2), ItemId(7));
    assert!(store.has_completed(UserId(2), ItemId(7)));
    assert_eq!(store.len(), 2);
}
