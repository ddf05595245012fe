//! The per-node local storage, for data that should survive a restart.

use std::path::PathBuf;
use vstd::prelude::*;

verus! {

#[verifier::external_type_specification]
#[verifier::external_body]
pub struct ExPathBuf(PathBuf);

#[verifier::external_type_specification]
#[verifier::external_body]
pub struct ExIoError(std::io::Error);

/// Why the storage could not be opened or used.
#[derive(Debug)]
pub enum StorageError {
    /// A stored value could not be encoded or decoded.
    Serialization(bincode::Error),
    /// The storage engine reported a failure, given here in its own words.
    StorageEngine(String),
    /// The operating system refused a read or a write.
    SystemIO(std::io::Error),
}

/// Storage that is kept in a directory of the node. The core of the node does
/// not store anything yet, so opening it touches nothing and cannot fail.
#[derive(Debug)]
pub struct PersistentStorage {}

impl PersistentStorage {
    /// Opens the storage that lives in `directory`.
    pub fn new(directory: PathBuf) -> (r: Result<Self, StorageError>)
        ensures
            r is Ok,
    {
        Ok(Self {  })
    }
}

} // verus!
