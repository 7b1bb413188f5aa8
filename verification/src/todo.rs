use crate::error::Error;
use crate::model::successor;
use crate::model::Record;
use vstd::prelude::*;

verus! {

/// A to-do record: an identifier, a title and whether it is done.
///
/// The identifier is fixed when the record is made. Title and status change
/// only through [`Todo::patched`].
#[derive(Debug, PartialEq, Eq)]
pub struct Todo {
    id: u32,
    title: String,
    status: bool,
}

impl View for Todo {
    type V = Record;

    closed spec fn view(&self) -> Record {
        Record { id: self.id, title: self.title@, status: self.status }
    }
}

impl Clone for Todo {
    /// A copy that is equal to the record, field by field.
    fn clone(&self) -> (copy: Self)
        ensures
            copy == *self,
    {
        Todo { id: self.id, title: self.title.clone(), status: self.status }
    }
}

impl Todo {
    /// Makes the record that a creation stores under `id`: titled `title`
    /// and not done.
    pub fn new(id: u32, title: String) -> (todo: Todo)
        ensures
            todo@ == Record::fresh(id, title@),
    {
        Todo { id, title, status: false }
    }

    /// The identifier of the record.
    pub fn id(&self) -> (id: u32)
        ensures
            id == self@.id,
    {
        self.id
    }

    /// The title of the record.
    pub fn title(&self) -> (title: &String)
        ensures
            title@ == self@.title,
    {
        &self.title
    }

    /// Whether the record is done.
    pub fn status(&self) -> (status: bool)
        ensures
            status == self@.status,
    {
        self.status
    }

    /// Replaces the title where one is given and the status where one is
    /// given. A field that is not given keeps its value, and so does the
    /// identifier.
    pub fn patched(self, title: Option<String>, status: Option<bool>) -> (todo: Todo)
        ensures
            todo@ == self@.patch(title.deep_view(), status),
    {
        let mut todo = self;
        if let Some(new_title) = title {
            todo.title = new_title;
        }
        if let Some(new_status) = status {
            todo.status = new_status;
        }
        todo
    }

    /// Turns what a lookup found into its outcome: the record, or
    /// [`Error::TodoNotFound`] where there was none.
    pub fn found(slot: Option<Todo>) -> (outcome: Result<Todo, Error>)
        ensures
            outcome == match slot {
                Some(todo) => Ok::<Todo, Error>(todo),
                None => Err::<Todo, Error>(Error::TodoNotFound),
            },
    {
        match slot {
            Some(todo) => Ok(todo),
            None => Err(Error::TodoNotFound),
        }
    }
}

/// The identifier that the counter holds after it has issued `id`: one more,
/// and `id` itself once the counter has reached its ceiling.
pub fn next_identifier(id: u32) -> (next: u32)
    ensures
        next == successor(id),
{
    id.saturating_add(1)
}

} // verus!
