//! The event that creates a buffer.

use vstd::prelude::*;

use crate::messages::buffer::{BufferMetadata, BufferMetadataView};

verus! {

/// The event that creates a buffer.
#[derive(Debug)]
pub struct Create {
    pub id: usize,
    pub metadata: BufferMetadata,
}

/// What the event that creates a buffer stands for.
pub struct CreateView {
    pub id: usize,
    pub metadata: BufferMetadataView,
}

impl View for Create {
    type V = CreateView;

    open spec fn view(&self) -> CreateView {
        CreateView { id: self.id, metadata: self.metadata@ }
    }
}

impl Clone for Create {
    fn clone(&self) -> (copy: Self)
        ensures
            copy@ == self@,
    {
        Create { id: self.id, metadata: self.metadata.clone() }
    }
}

} // verus!
