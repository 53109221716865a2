use todo_sync::item::Todo;
use todo_sync::store::Store;

#[test]
fn new_store_lists_nothing() {
    let s = Store::new();
    assert_eq!(s.list().unwrap().len(), 0);
}

#[test]
fn created_title_appears_with_fresh_identifier() {
    let mut s = Store::new();
    s.create("Buy milk".to_string()).unwrap();
    let listed = s.list().unwrap();
    assert_eq!(listed.len(), 1);
    assert_eq!(listed[0].title, "Buy milk");
    assert!(listed[0].id.is_some());
    assert!(!listed[0].completed);
}

#[test]
fn identifiers_stay_distinct() {
    let mut s = Store::new();
    s.create("one".to_string()).unwrap();
    s.create("two".to_string()).unwrap();
    s.create("one".to_string()).unwrap();
    let listed = s.list().unwrap();
    assert_eq!(listed.len(), 3);
    assert_ne!(listed[0].id, listed[1].id);
    assert_ne!(listed[0].id, listed[2].id);
    assert_ne!(listed[1].id, listed[2].id);
    // same title, different identifier: never equal
    assert_ne!(listed[0], listed[2]);
}

#[test]
fn delete_removes_only_that_item() {
    let mut s = Store::new();
    s.create("A".to_string()).unwrap();
    s.create("B".to_string()).unwrap();
    let a_id = s.list().unwrap()[0].id.unwrap();
    s.delete(a_id).unwrap();
    let listed = s.list().unwrap();
    assert_eq!(listed.len(), 1);
    assert_eq!(listed[0].title, "B");
}

#[test]
fn delete_is_idempotent() {
    let mut s = Store::new();
    s.create("A".to_string()).unwrap();
    let a_id = s.list().unwrap()[0].id.unwrap();
    s.delete(a_id).unwrap();
    // the record is already absent: still success, nothing changes
    assert!(s.delete(a_id).is_ok());
    assert_eq!(s.list().unwrap().len(), 0);
}

#[test]
fn delete_of_a_missing_identifier_succeeds() {
    let mut s = Store::new();
    s.create("A".to_string()).unwrap();
    assert!(s.delete(999).is_ok());
    assert_eq!(s.list().unwrap().len(), 1);
}

#[test]
fn new_record_starts_unpersisted() {
    let t = Todo::new("wash up".to_string());
    assert!(t.id.is_none());
    assert_eq!(t.title, "wash up");
    assert!(!t.completed);
}

#[test]
fn equality_needs_all_three_fields() {
    let mut s = Store::new();
    s.create("A".to_string()).unwrap();
    let listed = s.list().unwrap();
    let same = listed[0].clone();
    assert_eq!(listed[0], same);
    let unpersisted = Todo::new("A".to_string());
    // identical title, but no identifier yet: not the same item
    assert_ne!(listed[0], unpersisted);
}
