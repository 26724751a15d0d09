//! What the engine hands to a worker and what a worker reports back.

use vstd::prelude::*;

verus! {

/// One event in the stream a worker produces. A run ends with exactly one
/// `Completed`.
#[derive(Debug, Clone, PartialEq, Eq)]
pub enum AgentEvent {
    /// A line the worker wrote.
    Output(String),
    /// A message about the worker, from whoever runs it.
    System(String),
    /// The run is over.
    Completed { success: bool, code: i32 },
}

/// Mathematical value of an [`AgentEvent`].
pub enum EventView {
    Output(Seq<char>),
    System(Seq<char>),
    Completed { success: bool, code: i32 },
}

impl View for AgentEvent {
    type V = EventView;

    open spec fn view(&self) -> EventView {
        match self {
            AgentEvent::Output(line) => EventView::Output(line@),
            AgentEvent::System(line) => EventView::System(line@),
            AgentEvent::Completed { success, code } => EventView::Completed {
                success: *success,
                code: *code,
            },
        }
    }
}

/// The values of a list of events.
pub open spec fn event_views(events: Seq<AgentEvent>) -> Seq<EventView> {
    Seq::new(events.len(), |i: int| events[i]@)
}

} // verus!
