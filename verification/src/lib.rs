//! A store of to-do records, each kept under an identifier that the store
//! allocates from a counter which never runs backwards.
//!
//! [`TodoContract`] is the executable store. Its contracts are stated over
//! [`RecordStore`], the mathematical model of the same aggregate, and the
//! module [`laws`] proves what holds of every store and of every history of
//! calls.

pub mod error;
pub mod history;
pub mod laws;
pub mod model;
pub mod store;
pub mod todo;

pub use error::Error;
pub use history::Call;
pub use model::Record;
pub use model::RecordStore;
pub use model::FIRST_ID;
pub use model::ID_CEILING;
pub use store::TodoContract;
pub use todo::next_identifier;
pub use todo::Todo;
