use crate::model::RecordStore;
use vstd::prelude::*;

verus! {

/// One call of an operation of the store, with its arguments.
#[allow(inconsistent_fields)]
pub enum Call {
    /// A creation of a record with this title.
    Create { title: Seq<char> },
    /// A lookup of the record under this identifier.
    Read { id: u32 },
    /// An update of the record under this identifier with the fields given.
    Update { id: u32, title: Option<Seq<char>>, status: Option<bool> },
    /// A deletion of the record under this identifier.
    Delete { id: u32 },
    /// A look at the counter.
    GetNextId,
}

impl RecordStore {
    /// The store after one call. The two observers leave it as it is.
    pub open spec fn step(self, call: Call) -> RecordStore {
        match call {
            Call::Create { title } => self.create(title),
            Call::Read { id } => self,
            Call::Update { id, title, status } => self.update(id, title, status),
            Call::Delete { id } => self.delete(id),
            Call::GetNextId => self,
        }
    }

    /// The store after the calls of `calls`, made in order.
    pub open spec fn run(self, calls: Seq<Call>) -> RecordStore
        decreases calls.len(),
    {
        if calls.len() == 0 {
            self
        } else {
            self.step(calls[0]).run(calls.drop_first())
        }
    }

    /// The identifiers that the creations among `calls` return, in the order
    /// of the calls.
    pub open spec fn issued(self, calls: Seq<Call>) -> Seq<u32>
        decreases calls.len(),
    {
        if calls.len() == 0 {
            Seq::empty()
        } else {
            let later = self.step(calls[0]).issued(calls.drop_first());
            if calls[0] is Create {
                seq![self.next_id] + later
            } else {
                later
            }
        }
    }
}

} // verus!
