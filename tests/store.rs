use todo_service::models::Todo;
use todo_service::store::{StoreError, TodoStore};

fn todo(id: u64, content: &str, completed: bool) -> Todo {
    Todo { id, content: content.to_string(), completed }
}

#[test]
fn new_store_is_empty() {
    let store = TodoStore::new();
    assert_eq!(store.len(), 0);
    assert!(store.list().is_empty());
}

#[test]
fn first_create_gets_id_one() {
    let mut store = TodoStore::new();
    let created = store.create("buy milk".to_string()).unwrap();
    assert_eq!(created, todo(1, "buy milk", false));
}

#[test]
fn sequential_creates_get_increasing_unique_ids() {
    let mut store = TodoStore::new();
    let mut ids = Vec::new();
    for k in 0..10 {
        let created = store.create(format!("item {}", k)).unwrap();
        ids.push(created.id);
    }
    for w in ids.windows(2) {
        assert!(w[0] < w[1]);
    }
    assert_eq!(ids, (1..=10).collect::<Vec<u64>>());
}

#[test]
fn create_after_deleting_the_largest_reuses_max_plus_one() {
    let mut store = TodoStore::new();
    store.create("a".to_string()).unwrap();
    store.create("b".to_string()).unwrap();
    store.create("c".to_string()).unwrap();
    assert_eq!(store.delete(3), Ok(()));
    assert_eq!(store.create("d".to_string()).unwrap().id, 3);
    assert_eq!(store.delete(1), Ok(()));
    assert_eq!(store.create("e".to_string()).unwrap().id, 4);
}

#[test]
fn create_then_get_returns_the_created_record() {
    let mut store = TodoStore::new();
    store.create("first".to_string()).unwrap();
    let created = store.create("second".to_string()).unwrap();
    assert_eq!(store.get(created.id), Ok(created.clone()));
    assert_eq!(created, todo(2, "second", false));
}

#[test]
fn get_absent_id_is_not_found() {
    let mut store = TodoStore::new();
    assert_eq!(store.get(1), Err(StoreError::NotFound));
    store.create("x".to_string()).unwrap();
    assert_eq!(store.get(2), Err(StoreError::NotFound));
}

#[test]
fn update_without_flag_keeps_completed() {
    let mut store = TodoStore::new();
    store.create("old".to_string()).unwrap();
    store.update(1, "mid".to_string(), Some(true)).unwrap();
    let updated = store.update(1, "new".to_string(), None).unwrap();
    assert_eq!(updated, todo(1, "new", true));
    assert_eq!(store.get(1), Ok(todo(1, "new", true)));

    store.create("other".to_string()).unwrap();
    let updated = store.update(2, "changed".to_string(), None).unwrap();
    assert_eq!(updated, todo(2, "changed", false));
}

#[test]
fn update_with_flag_sets_both_fields() {
    let mut store = TodoStore::new();
    store.create("old".to_string()).unwrap();
    let updated = store.update(1, "new".to_string(), Some(true)).unwrap();
    assert_eq!(updated, todo(1, "new", true));
    assert_eq!(store.get(1), Ok(todo(1, "new", true)));
    let updated = store.update(1, "newer".to_string(), Some(false)).unwrap();
    assert_eq!(updated, todo(1, "newer", false));
}

#[test]
fn update_absent_id_is_not_found_and_changes_nothing() {
    let mut store = TodoStore::new();
    store.create("keep".to_string()).unwrap();
    assert_eq!(store.update(7, "x".to_string(), Some(true)), Err(StoreError::NotFound));
    assert_eq!(store.list(), vec![todo(1, "keep", false)]);
}

#[test]
fn delete_then_get_is_not_found() {
    let mut store = TodoStore::new();
    store.create("gone".to_string()).unwrap();
    assert_eq!(store.delete(1), Ok(()));
    assert_eq!(store.get(1), Err(StoreError::NotFound));
}

#[test]
fn delete_absent_id_is_not_found() {
    let mut store = TodoStore::new();
    assert_eq!(store.delete(1), Err(StoreError::NotFound));
    store.create("x".to_string()).unwrap();
    assert_eq!(store.delete(5), Err(StoreError::NotFound));
    assert_eq!(store.delete(1), Ok(()));
    assert_eq!(store.delete(1), Err(StoreError::NotFound));
}

#[test]
fn list_after_creates_and_one_delete() {
    let mut store = TodoStore::new();
    let mut created = Vec::new();
    for k in 0..5 {
        created.push(store.create(format!("task {}", k)).unwrap());
    }
    assert_eq!(store.delete(3), Ok(()));
    let listed = store.list();
    assert_eq!(listed.len(), 4);
    for t in &listed {
        assert!(created.contains(t));
        assert_ne!(t.id, 3);
    }
    for t in &created {
        if t.id != 3 {
            assert!(listed.contains(t));
        }
    }
}

#[test]
fn creates_from_empty_get_ids_one_to_k() {
    let mut store = TodoStore::new();
    let k: u64 = 25;
    for n in 0..k {
        store.create(format!("n{}", n)).unwrap();
    }
    let mut ids: Vec<u64> = store.list().iter().map(|t| t.id).collect();
    ids.sort();
    assert_eq!(ids, (1..=k).collect::<Vec<u64>>());
    assert_eq!(store.len(), 25);
}

#[test]
fn duplicate_copies_every_field() {
    let t = todo(9, "copy me", true);
    assert_eq!(t.duplicate(), t);
}
