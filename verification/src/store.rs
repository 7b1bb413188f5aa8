use crate::error::Error;
use crate::model::Record;
use crate::model::RecordStore;
use crate::model::FIRST_ID;
use crate::todo::next_identifier;
use crate::todo::Todo;
use std::collections::HashMap;
use vstd::prelude::*;

verus! {

broadcast use vstd::std_specs::hash::group_hash_axioms;

/// The store: the records, each under its identifier, and the counter that
/// issues the identifiers.
///
/// Every operation runs to its end before the next begins. What each one
/// returns and changes is stated over the store's view, a [`RecordStore`].
/// A new store is well formed ([`RecordStore::wf`]), and every operation
/// keeps a well-formed store well formed.
pub struct TodoContract {
    todos: HashMap<u32, Todo>,
    next_id: u32,
}

impl View for TodoContract {
    type V = RecordStore;

    closed spec fn view(&self) -> RecordStore {
        RecordStore { records: self.todos@.map_values(|todo: Todo| todo@), next_id: self.next_id }
    }
}

impl Default for TodoContract {
    /// The same store as [`TodoContract::new`] makes.
    fn default() -> (store: Self)
        ensures
            store@ == RecordStore::empty(),
            store@.wf(),
    {
        TodoContract::new()
    }
}

impl TodoContract {
    /// Makes a store that keeps no record and will issue the first
    /// identifier.
    pub fn new() -> (store: Self)
        ensures
            store@ == RecordStore::empty(),
            store@.wf(),
    {
        let store = TodoContract { todos: HashMap::new(), next_id: FIRST_ID };
        store
    }

    /// Stores a new record titled `title`, not done, under the identifier
    /// that the counter holds, and moves the counter on. Returns that
    /// identifier; never fails.
    ///
    /// Once the counter has reached its ceiling it stays there, and a
    /// creation then replaces the record kept under the ceiling.
    pub fn create(&mut self, title: String) -> (outcome: Result<u32, Error>)
        ensures
            outcome == Ok::<u32, Error>(old(self)@.next_id),
            final(self)@ == old(self)@.create(title@),
            old(self)@.wf() ==> final(self)@.wf(),
    {
        let id = self.next_id;
        let todo = Todo::new(id, title);
        self.next_id = next_identifier(id);
        self.todos.insert(id, todo);
        Ok(id)
    }

    /// Returns a copy of the record kept under `id`, or
    /// [`Error::TodoNotFound`] where none is kept. Changes nothing.
    pub fn read(&self, id: u32) -> (outcome: Result<Todo, Error>)
        ensures
            match outcome {
                Ok(todo) => self@.read(id) == Ok::<Record, Error>(todo@),
                Err(e) => self@.read(id) == Err::<Record, Error>(e),
            },
    {
        Todo::found(self.todos.get(&id).cloned())
    }

    /// Replaces, in the record kept under `id`, the title where one is given
    /// and the status where one is given; what is not given stays. Where no
    /// record is kept under `id`, returns [`Error::TodoNotFound`] and changes
    /// nothing: no record is made.
    pub fn update(&mut self, id: u32, title: Option<String>, status: Option<bool>) -> (outcome:
        Result<(), Error>)
        ensures
            outcome == old(self)@.require(id),
            final(self)@ == old(self)@.update(id, title.deep_view(), status),
            old(self)@.wf() ==> final(self)@.wf(),
    {
        let todo = Todo::found(self.todos.get(&id).cloned())?;
        self.todos.insert(id, todo.patched(title, status));
        Ok(())
    }

    /// Removes the record kept under `id`. Where none is kept, returns
    /// [`Error::TodoNotFound`] and changes nothing. The counter stays as it
    /// is, so the identifier is not issued again.
    pub fn delete(&mut self, id: u32) -> (outcome: Result<(), Error>)
        ensures
            outcome == old(self)@.require(id),
            final(self)@ == old(self)@.delete(id),
            old(self)@.wf() ==> final(self)@.wf(),
    {
        if self.todos.get(&id).is_none() {
            return Err(Error::TodoNotFound);
        }
        self.todos.remove(&id);
        Ok(())
    }

    /// Returns the identifier that the next creation will issue. Changes
    /// nothing.
    pub fn get_next_id(&self) -> (next: u32)
        ensures
            next == self@.next_id,
    {
        self.next_id
    }
}

} // verus!
