use crate::error::Error;
use vstd::prelude::*;

verus! {

/// The largest identifier. The counter of a store stops here.
pub const ID_CEILING: u32 = 0xffff_ffff;

/// The first identifier that a new store issues.
pub const FIRST_ID: u32 = 1;

/// The identifier that follows `id` in the order of allocation: one more, but
/// never beyond [`ID_CEILING`].
pub open spec fn successor(id: u32) -> u32 {
    if id < ID_CEILING {
        (id + 1) as u32
    } else {
        ID_CEILING
    }
}

/// What a to-do record is: its identifier, its title and whether it is done.
pub struct Record {
    pub id: u32,
    pub title: Seq<char>,
    pub status: bool,
}

impl Record {
    /// The record that a store creates under `id`: titled as asked, not done.
    pub open spec fn fresh(id: u32, title: Seq<char>) -> Record {
        Record { id, title, status: false }
    }

    /// The record with each field that is given replaced and the others kept.
    /// The identifier is never replaced.
    pub open spec fn patch(self, title: Option<Seq<char>>, status: Option<bool>) -> Record {
        Record {
            id: self.id,
            title: match title {
                Some(t) => t,
                None => self.title,
            },
            status: match status {
                Some(s) => s,
                None => self.status,
            },
        }
    }
}

/// What a store is: the records it keeps, each under its identifier, and the
/// identifier that the next creation will issue.
#[verifier::ext_equal]
pub struct RecordStore {
    pub records: Map<u32, Record>,
    pub next_id: u32,
}

impl RecordStore {
    /// The store before any call: no record, and the first identifier next.
    pub open spec fn empty() -> RecordStore {
        RecordStore { records: Map::empty(), next_id: FIRST_ID }
    }

    /// Whether a record is kept under `id`.
    pub open spec fn contains(self, id: u32) -> bool {
        self.records.contains_key(id)
    }

    /// What holds of every store that calls can reach.
    ///
    /// Every record carries the identifier it is kept under. Every such
    /// identifier was issued by the counter: it is at least [`FIRST_ID`] and
    /// lies below the counter, unless the counter has stopped at
    /// [`ID_CEILING`].
    pub open spec fn wf(self) -> bool {
        &&& self.next_id >= FIRST_ID
        &&& forall|id: u32| #[trigger]
            self.records.contains_key(id) ==> {
                &&& self.records[id].id == id
                &&& id >= FIRST_ID
                &&& (id < self.next_id || self.next_id == ID_CEILING)
            }
    }

    /// The store after a creation: a fresh record under the counter's value,
    /// and the counter moved to its successor.
    pub open spec fn create(self, title: Seq<char>) -> RecordStore {
        RecordStore {
            records: self.records.insert(self.next_id, Record::fresh(self.next_id, title)),
            next_id: successor(self.next_id),
        }
    }

    /// What a lookup of `id` finds: the record, or that there is none.
    pub open spec fn read(self, id: u32) -> Result<Record, Error> {
        if self.contains(id) {
            Ok(self.records[id])
        } else {
            Err(Error::TodoNotFound)
        }
    }

    /// Whether an update or a deletion of `id` is carried out or refused.
    pub open spec fn require(self, id: u32) -> Result<(), Error> {
        if self.contains(id) {
            Ok(())
        } else {
            Err(Error::TodoNotFound)
        }
    }

    /// The store after an update of `id`: its record patched where one is
    /// kept, and nothing changed where none is.
    pub open spec fn update(
        self,
        id: u32,
        title: Option<Seq<char>>,
        status: Option<bool>,
    ) -> RecordStore {
        if self.contains(id) {
            RecordStore {
                records: self.records.insert(id, self.records[id].patch(title, status)),
                next_id: self.next_id,
            }
        } else {
            self
        }
    }

    /// The store after a deletion of `id`: without a record under it. The
    /// counter stays, so the identifier is not issued again.
    pub open spec fn delete(self, id: u32) -> RecordStore {
        RecordStore { records: self.records.remove(id), next_id: self.next_id }
    }
}

} // verus!
