use crud_todo::Error;
use crud_todo::TodoContract;

#[test]
fn create_todo() {
    let mut contract = TodoContract::new();
    let id = contract.create(String::from("Write Rust")).unwrap();
    assert_eq!(id, 1);

    let todo = contract.read(id).unwrap();
    assert_eq!(todo.title(), "Write Rust");
    assert_eq!(todo.status(), false);
}

#[test]
fn read_todo() {
    let mut contract = TodoContract::new();
    let id = contract.create(String::from("Test todo")).unwrap();
    let todo = contract.read(id).unwrap();
    assert_eq!(todo.id(), 1);
    assert_eq!(todo.title(), "Test todo");
}

#[test]
fn update_todo() {
    let mut contract = TodoContract::new();
    let id = contract.create(String::from("Old title")).unwrap();

    contract
        .update(id, Some(String::from("New title")), Some(true))
        .unwrap();
    let todo = contract.read(id).unwrap();
    assert_eq!(todo.title(), "New title");
    assert_eq!(todo.status(), true);
}

#[test]
fn delete_todo() {
    let mut contract = TodoContract::new();
    let id = contract.create(String::from("To be deleted")).unwrap();

    contract.delete(id).unwrap();
    assert_eq!(contract.read(id), Err(Error::TodoNotFound));
}

#[test]
fn error_handling_todo() {
    let mut contract = TodoContract::new();
    assert_eq!(contract.read(999), Err(Error::TodoNotFound));
    assert_eq!(contract.delete(999), Err(Error::TodoNotFound));
}
