//! Where the documents are stored.

use vstd::prelude::*;

verus! {

/// A document store at a given path. The database behind it is opened by
/// the caller.
#[derive(Debug, Clone)]
pub struct RagStorage {
    db_path: String,
}

impl RagStorage {
    /// The path of the database.
    pub closed spec fn path(&self) -> Seq<char> {
        self.db_path@
    }

    /// A store at `db_path`.
    pub fn new(db_path: String) -> (r: Self)
        ensures
            r.path() == db_path@,
    {
        RagStorage { db_path }
    }

    /// The path of the database.
    pub fn db_path(&self) -> (r: &str)
        ensures
            r@ == self.path(),
    {
        self.db_path.as_str()
    }
}

} // verus!
