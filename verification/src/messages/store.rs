//! The command that creates a storage backend.

use vstd::prelude::*;

use crate::state::store::{Connection, ObjectStoreKind};

verus! {

/// What a new storage backend is called and where it is rooted.
#[derive(Debug)]
pub struct Metadata {
    pub name: String,
    pub prefix: String,
    pub kind: ObjectStoreKind,
}

impl Clone for Metadata {
    fn clone(&self) -> (copy: Self)
        ensures
            copy == *self,
    {
        Metadata { name: self.name.clone(), prefix: self.prefix.clone(), kind: self.kind }
    }
}

/// The command that creates a storage backend.
#[derive(Debug)]
pub struct Create {
    pub metadata: Metadata,
    pub connection: Connection,
}

impl Clone for Create {
    fn clone(&self) -> (copy: Self)
        ensures
            copy == *self,
    {
        Create { metadata: self.metadata.clone(), connection: self.connection.clone() }
    }
}

} // verus!
