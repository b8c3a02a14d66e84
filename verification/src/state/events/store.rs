//! The event that creates a storage backend.

use vstd::prelude::*;

use crate::messages;
use crate::state::store::{Connection, Metadata};

verus! {

/// The event that creates a storage backend.
#[derive(Debug)]
pub struct Create {
    pub id: usize,
    pub metadata: Metadata,
    pub connection: Connection,
}

impl Clone for Create {
    fn clone(&self) -> (copy: Self)
        ensures
            copy == *self,
    {
        Create { id: self.id, metadata: self.metadata.clone(), connection: self.connection.clone() }
    }
}

impl Create {
    /// The event for a command, with the ids that were allocated to it.
    pub fn from_msg(event_id: usize, store_id: usize, message: messages::store::Create) -> (event:
        Self)
        ensures
            event == (Create {
                id: event_id,
                metadata: Metadata {
                    id: store_id,
                    name: message.metadata.name,
                    prefix: message.metadata.prefix,
                    kind: message.metadata.kind,
                },
                connection: message.connection,
            }),
    {
        let metadata = message.metadata;
        Self {
            id: event_id,
            metadata: Metadata {
                id: store_id,
                name: metadata.name,
                prefix: metadata.prefix,
                kind: metadata.kind,
            },
            connection: message.connection,
        }
    }
}

} // verus!
