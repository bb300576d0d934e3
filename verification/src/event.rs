//! What the dispatcher is told.

use crate::spec::{Spec, SpecView};
use vstd::prelude::*;

verus! {

/// One input of the dispatcher. Events are handled one at a time, in the
/// order in which they arrive.
#[derive(Debug, Clone, PartialEq, Eq)]
pub enum Event {
    /// A descriptor was decoded: this deployment is wanted now.
    NewSpec(Spec),
    /// The candidate did not become healthy.
    DeployFailed,
    /// The candidate is healthy.
    GotStable,
}

/// The mathematical value of an [`Event`].
pub ghost enum EventView {
    NewSpec(SpecView),
    DeployFailed,
    GotStable,
}

impl DeepView for Event {
    type V = EventView;

    open spec fn deep_view(&self) -> EventView {
        match self {
            Event::NewSpec(spec) => EventView::NewSpec(spec@),
            Event::DeployFailed => EventView::DeployFailed,
            Event::GotStable => EventView::GotStable,
        }
    }
}

impl View for Event {
    type V = EventView;

    open spec fn view(&self) -> EventView {
        self.deep_view()
    }
}

impl Event {
    /// Whether the event is the verdict of a health evaluation.
    pub open spec fn is_verdict(self) -> bool {
        self is DeployFailed || self is GotStable
    }
}

} // verus!
