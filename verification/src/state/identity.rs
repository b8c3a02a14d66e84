//! Storage backends and buffers are the same, and are ordered, by their ids.

use std::cmp::Ordering;
use vstd::prelude::*;
use vstd::std_specs::cmp::{PartialEqSpecImpl, PartialOrdSpecImpl};

use crate::state::app::BufferState;
use crate::state::store::Metadata;

verus! {

/// How the id `a` stands to the id `b`.
pub open spec fn id_order(a: usize, b: usize) -> Ordering {
    if a < b {
        Ordering::Less
    } else if a == b {
        Ordering::Equal
    } else {
        Ordering::Greater
    }
}

/// How the id `a` stands to the id `b`.
pub fn order_ids(a: usize, b: usize) -> (order: Ordering)
    ensures
        order == id_order(a, b),
{
    if a < b {
        Ordering::Less
    } else if a == b {
        Ordering::Equal
    } else {
        Ordering::Greater
    }
}

impl PartialEq for Metadata {
    fn eq(&self, other: &Self) -> (same: bool) {
        self.id == other.id
    }
}

impl PartialEqSpecImpl for Metadata {
    open spec fn obeys_eq_spec() -> bool {
        true
    }

    open spec fn eq_spec(&self, other: &Self) -> bool {
        self.id == other.id
    }
}

impl PartialOrd for Metadata {
    fn partial_cmp(&self, other: &Self) -> (order: Option<Ordering>) {
        Some(order_ids(self.id, other.id))
    }
}

impl PartialOrdSpecImpl for Metadata {
    open spec fn obeys_partial_cmp_spec() -> bool {
        true
    }

    open spec fn partial_cmp_spec(&self, other: &Self) -> Option<Ordering> {
        Some(id_order(self.id, other.id))
    }
}

impl PartialEq for BufferState {
    fn eq(&self, other: &Self) -> (same: bool) {
        self.id == other.id
    }
}

impl PartialEqSpecImpl for BufferState {
    open spec fn obeys_eq_spec() -> bool {
        true
    }

    open spec fn eq_spec(&self, other: &Self) -> bool {
        self.id == other.id
    }
}

impl PartialOrd for BufferState {
    fn partial_cmp(&self, other: &Self) -> (order: Option<Ordering>) {
        Some(order_ids(self.id, other.id))
    }
}

impl PartialOrdSpecImpl for BufferState {
    open spec fn obeys_partial_cmp_spec() -> bool {
        true
    }

    open spec fn partial_cmp_spec(&self, other: &Self) -> Option<Ordering> {
        Some(id_order(self.id, other.id))
    }
}

} // verus!
