//! A database that holds nothing.
use vstd::prelude::*;
use crate::error::AnyError;

verus! {

/// Opens databases that hold nothing.
#[derive(Debug)]
pub struct FakeDbHandler;

/// A database that holds nothing.
#[derive(Debug)]
pub struct FakeDb;

impl FakeDbHandler {
    /// Opens a database, whatever the path. This never fails.
    pub fn open(&self, _path: Option<String>) -> (r: Result<FakeDb, AnyError>)
        ensures
            r matches Ok(db) && db == FakeDb,
    {
        Ok(FakeDb)
    }
}

} // verus!
