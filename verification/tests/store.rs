use todo_on_chain_backend::record::{Messages, TodoItemView};
use todo_on_chain_backend::store::TaskStore;

fn view(assignee: &[u8], description: &[u8], duration: u64, is_active: bool) -> TodoItemView {
    TodoItemView {
        assignee: assignee.to_vec(),
        description: description.to_vec(),
        duration,
        is_active,
    }
}

#[test]
fn created_ids_strictly_increase_across_deletes() {
    let mut store = TaskStore::new();
    let a = store
        .insert_new_todo(view(b"x", b"one", 1, true), b"A".to_vec(), 10)
        .unwrap();
    let b = store
        .insert_new_todo(view(b"x", b"two", 2, true), b"A".to_vec(), 11)
        .unwrap();
    assert!(b.id > a.id);
    assert_eq!(store.delete_todo(a.id, b"A".to_vec()), Ok(Messages::Success));
    let c = store
        .insert_new_todo(view(b"x", b"three", 3, true), b"A".to_vec(), 12)
        .unwrap();
    assert!(c.id > b.id);
    assert_eq!(a.id, 0);
    assert_eq!(b.id, 1);
    assert_eq!(c.id, 2);
}

#[test]
fn create_then_get_returns_stamped_record() {
    let mut store = TaskStore::new();
    let created = store
        .insert_new_todo(view(b"Bob", b"ship", 30, true), b"ownerA".to_vec(), 777)
        .unwrap();
    let got = store.get_todo(created.id).unwrap();
    assert_eq!(got.owner, b"ownerA".to_vec());
    assert_eq!(got.id, created.id);
    assert_eq!(got.assignee, b"Bob".to_vec());
    assert_eq!(got.description, b"ship".to_vec());
    assert_eq!(got.duration, 30);
    assert!(got.is_active);
    assert_eq!(got.created_at, 777);
    assert_eq!(got.updated_at, got.created_at);
}

#[test]
fn update_by_non_owner_is_rejected_and_changes_nothing() {
    let mut store = TaskStore::new();
    let created = store
        .insert_new_todo(view(b"Bob", b"ship", 30, true), b"ownerA".to_vec(), 100)
        .unwrap();
    let r = store.update_todo(
        created.id,
        view(b"Carl", b"sink", 99, false),
        b"ownerB".to_vec(),
        200,
    );
    assert_eq!(r, Err(Messages::NotAuthorized));
    let got = store.get_todo(created.id).unwrap();
    assert_eq!(got.assignee, b"Bob".to_vec());
    assert_eq!(got.description, b"ship".to_vec());
    assert_eq!(got.duration, 30);
    assert!(got.is_active);
    assert_eq!(got.owner, b"ownerA".to_vec());
    assert_eq!(got.created_at, 100);
    assert_eq!(got.updated_at, 100);
}

#[test]
fn update_by_owner_replaces_payload_and_advances_updated_at() {
    let mut store = TaskStore::new();
    let created = store
        .insert_new_todo(view(b"Bob", b"ship", 30, true), b"ownerA".to_vec(), 100)
        .unwrap();
    let r = store.update_todo(
        created.id,
        view(b"Carl", b"sail", 45, false),
        b"ownerA".to_vec(),
        250,
    );
    assert_eq!(r, Ok(Messages::Success));
    let got = store.get_todo(created.id).unwrap();
    assert_eq!(got.assignee, b"Carl".to_vec());
    assert_eq!(got.description, b"sail".to_vec());
    assert_eq!(got.duration, 45);
    assert!(!got.is_active);
    assert_eq!(got.updated_at, 250);
    assert!(got.updated_at >= 100);
    assert_eq!(got.id, created.id);
    assert_eq!(got.owner, b"ownerA".to_vec());
    assert_eq!(got.created_at, 100);
}

#[test]
fn update_never_moves_updated_at_backwards() {
    let mut store = TaskStore::new();
    let created = store
        .insert_new_todo(view(b"Bob", b"ship", 30, true), b"ownerA".to_vec(), 500)
        .unwrap();
    let r = store.update_todo(
        created.id,
        view(b"Carl", b"sail", 45, false),
        b"ownerA".to_vec(),
        400,
    );
    assert_eq!(r, Ok(Messages::Success));
    let got = store.get_todo(created.id).unwrap();
    assert_eq!(got.updated_at, 500);
    assert_eq!(got.assignee, b"Carl".to_vec());
}

#[test]
fn delete_then_gone_and_further_calls_report_no_such_item() {
    let mut store = TaskStore::new();
    let created = store
        .insert_new_todo(view(b"Bob", b"ship", 30, true), b"ownerA".to_vec(), 100)
        .unwrap();
    assert_eq!(
        store.delete_todo(created.id, b"ownerA".to_vec()),
        Ok(Messages::Success)
    );
    assert!(store.get_todo(created.id).is_none());
    assert_eq!(
        store.delete_todo(created.id, b"ownerA".to_vec()),
        Err(Messages::NoSuchItem)
    );
    assert_eq!(
        store.update_todo(
            created.id,
            view(b"Carl", b"sail", 1, true),
            b"ownerA".to_vec(),
            200
        ),
        Err(Messages::NoSuchItem)
    );
}

#[test]
fn delete_by_non_owner_is_rejected_and_record_stays() {
    let mut store = TaskStore::new();
    let created = store
        .insert_new_todo(view(b"Bob", b"ship", 30, true), b"ownerA".to_vec(), 100)
        .unwrap();
    assert_eq!(
        store.delete_todo(created.id, b"ownerB".to_vec()),
        Err(Messages::NotAuthorized)
    );
    let got = store.get_todo(created.id).unwrap();
    assert_eq!(got.owner, b"ownerA".to_vec());
    assert_eq!(got.assignee, b"Bob".to_vec());
    assert_eq!(got.duration, 30);
}

#[test]
fn fetch_all_returns_records_in_ascending_id_order() {
    let mut store = TaskStore::new();
    let a = store
        .insert_new_todo(view(b"x", b"zero", 0, true), b"A".to_vec(), 1)
        .unwrap();
    let b = store
        .insert_new_todo(view(b"x", b"one", 1, true), b"A".to_vec(), 2)
        .unwrap();
    let c = store
        .insert_new_todo(view(b"x", b"two", 2, true), b"A".to_vec(), 3)
        .unwrap();
    assert_eq!(store.delete_todo(b.id, b"A".to_vec()), Ok(Messages::Success));
    let d = store
        .insert_new_todo(view(b"x", b"three", 3, true), b"A".to_vec(), 4)
        .unwrap();
    let all = store.get_todo_list_vector();
    let ids: Vec<u64> = all.iter().map(|t| t.id).collect();
    assert_eq!(ids, vec![a.id, c.id, d.id]);
    assert!(ids.windows(2).all(|w| w[0] < w[1]));
}

#[test]
fn fetch_all_on_empty_store_is_empty() {
    let store = TaskStore::new();
    assert!(store.get_todo_list_vector().is_empty());
}

#[test]
fn full_lifecycle_scenario() {
    let mut store = TaskStore::new();
    let created = store
        .insert_new_todo(view(b"Bob", b"ship", 30, true), b"A".to_vec(), 1000)
        .unwrap();
    assert_eq!(created.id, 0);

    let got = store.get_todo(0).unwrap();
    assert_eq!(got.assignee, b"Bob".to_vec());
    assert_eq!(got.created_at, got.updated_at);

    let r = store.update_todo(0, view(b"Carl", b"ship", 30, true), b"B".to_vec(), 2000);
    assert_eq!(r, Err(Messages::NotAuthorized));
    let got = store.get_todo(0).unwrap();
    assert_eq!(got.assignee, b"Bob".to_vec());

    let r = store.update_todo(0, view(b"Carl", b"ship", 30, true), b"A".to_vec(), 2000);
    assert_eq!(r, Ok(Messages::Success));
    let got = store.get_todo(0).unwrap();
    assert_eq!(got.assignee, b"Carl".to_vec());

    assert_eq!(store.delete_todo(0, b"A".to_vec()), Ok(Messages::Success));
    assert!(store.get_todo(0).is_none());
}

#[test]
fn allocator_hands_out_sequential_ids() {
    let mut store = TaskStore::new();
    assert_eq!(store.current_id(), 0);
    assert_eq!(store.get_and_inc_current_id(), 0);
    assert_eq!(store.get_and_inc_current_id(), 1);
    assert_eq!(store.current_id(), 2);
}

#[test]
fn open_yields_a_working_store() {
    // Off-chain the backing memory starts untouched, so open finds an empty
    // store and validates it.
    let mut store = TaskStore::open().unwrap();
    assert!(store.get_todo_list_vector().is_empty());
    let created = store
        .insert_new_todo(view(b"Bob", b"ship", 30, true), b"A".to_vec(), 5)
        .unwrap();
    let got = store.get_todo(created.id).unwrap();
    assert_eq!(got.assignee, b"Bob".to_vec());
}

#[test]
fn get_of_unknown_id_is_absent() {
    let store = TaskStore::new();
    assert!(store.get_todo(7).is_none());
}
