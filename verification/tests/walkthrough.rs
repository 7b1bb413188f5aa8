use crud_todo::Error;
use crud_todo::Todo;
use crud_todo::TodoContract;

fn after_first_create() -> TodoContract {
    let mut store = TodoContract::new();
    assert_eq!(store.create(String::from("Write spec")), Ok(1));
    store
}

fn after_full_update() -> TodoContract {
    let mut store = after_first_create();
    assert_eq!(
        store.update(1, Some(String::from("Write spec v2")), Some(true)),
        Ok(())
    );
    store
}

#[test]
fn first_create_returns_one_and_reads_back() {
    let store = after_first_create();
    let todo = store.read(1).unwrap();
    assert_eq!(todo.id(), 1);
    assert_eq!(todo.title(), "Write spec");
    assert_eq!(todo.status(), false);
    assert_eq!(todo, Todo::new(1, String::from("Write spec")));
}

#[test]
fn full_update_replaces_title_and_status() {
    let store = after_full_update();
    let todo = store.read(1).unwrap();
    assert_eq!(todo.id(), 1);
    assert_eq!(todo.title(), "Write spec v2");
    assert_eq!(todo.status(), true);
}

#[test]
fn delete_after_update_leaves_nothing_to_read() {
    let mut store = after_full_update();
    assert_eq!(store.delete(1), Ok(()));
    assert_eq!(store.read(1), Err(Error::TodoNotFound));
}

#[test]
fn counter_starts_at_one_and_moves_with_create() {
    let mut store = TodoContract::new();
    assert_eq!(store.get_next_id(), 1);
    store.create(String::from("first")).unwrap();
    assert_eq!(store.get_next_id(), 2);
}

#[test]
fn default_store_is_a_new_store() {
    let mut store = TodoContract::default();
    assert_eq!(store.get_next_id(), 1);
    assert_eq!(store.read(1), Err(Error::TodoNotFound));
    assert_eq!(store.create(String::from("first")), Ok(1));
}
