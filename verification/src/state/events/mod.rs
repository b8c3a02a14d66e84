//! The events of the log: commands with the ids that were allocated to them.

pub mod buffer;
pub mod store;

use vstd::prelude::*;

verus! {

/// An event of the log.
#[derive(Debug)]
pub enum Events {
    CreateObjectStore(store::Create),
    CreateBuffer(buffer::Create),
}

/// What an event stands for.
pub enum EventsView {
    CreateObjectStore(store::Create),
    CreateBuffer(buffer::CreateView),
}

impl View for Events {
    type V = EventsView;

    open spec fn view(&self) -> EventsView {
        match self {
            Events::CreateObjectStore(event) => EventsView::CreateObjectStore(*event),
            Events::CreateBuffer(event) => EventsView::CreateBuffer(event@),
        }
    }
}

impl Clone for Events {
    fn clone(&self) -> (copy: Self)
        ensures
            copy@ == self@,
    {
        match self {
            Events::CreateObjectStore(event) => Events::CreateObjectStore(event.clone()),
            Events::CreateBuffer(event) => Events::CreateBuffer(event.clone()),
        }
    }
}

impl Events {
    /// The id of the event.
    pub fn get_id(&self) -> (id: usize)
        ensures
            id == event_id(self@),
    {
        match self {
            Events::CreateObjectStore(event) => event.id,
            Events::CreateBuffer(event) => event.id,
        }
    }
}

/// The id of an event.
pub open spec fn event_id(event: EventsView) -> usize {
    match event {
        EventsView::CreateObjectStore(event) => event.id,
        EventsView::CreateBuffer(event) => event.id,
    }
}

} // verus!
