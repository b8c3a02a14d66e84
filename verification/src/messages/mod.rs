//! What the front end asks for: commands that do not carry ids yet.

pub mod buffer;
pub mod store;

use vstd::prelude::*;

verus! {

/// A command that creates an entity.
#[derive(Debug)]
pub enum Messages {
    CreateObjectStore(store::Create),
    CreateBuffer(buffer::Create),
}

} // verus!
