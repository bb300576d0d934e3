//! The decoder stage: it stands between the watch source and the
//! dispatcher and turns descriptor payloads into events.

use crate::event::{Event, EventView};
use crate::payload::decoded_text;
use crate::spec::Spec;
use vstd::prelude::*;

verus! {

/// The events that a run of payloads gives: one `NewSpec` for each payload
/// that decodes, in the order of the payloads. A payload that does not
/// decode gives nothing; equal payloads give equal events, one each.
pub open spec fn events_of(payloads: Seq<Seq<char>>) -> Seq<EventView>
    decreases payloads.len(),
{
    if payloads.len() == 0 {
        Seq::empty()
    } else {
        let front = events_of(payloads.drop_last());
        match decoded_text(payloads.last()) {
            Ok(spec) => front.push(EventView::NewSpec(spec)),
            Err(_) => front,
        }
    }
}

/// Payloads that wait to be decoded.
pub struct Condo {
    specs: Vec<String>,
}

impl View for Condo {
    type V = Seq<Seq<char>>;

    closed spec fn view(&self) -> Seq<Seq<char>> {
        self.specs.deep_view()
    }
}

impl Condo {
    #[inline]
    pub fn new(input: Vec<String>) -> (r: Self)
        ensures
            r@ == input.deep_view(),
    {
        Condo { specs: input }
    }

    /// Decodes the payloads in order and hands back the events for the
    /// dispatcher. A malformed payload is passed over and leaves the others
    /// untouched.
    pub fn start(self) -> (r: Vec<Event>)
        ensures
            r.deep_view() == events_of(self@),
    {
        let ghost all = self.specs.deep_view();
        let mut events: Vec<Event> = Vec::new();
        let mut i: usize = 0;
        assert(events.deep_view() =~= Seq::<EventView>::empty());
        while i < self.specs.len()
            invariant
                i <= self.specs.len(),
                all == self.specs.deep_view(),
                events.deep_view() == events_of(all.take(i as int)),
            decreases self.specs.len() - i,
        {
            proof {
                assert(all.take(i + 1).drop_last() =~= all.take(i as int));
                assert(all.take(i + 1).last() == self.specs[i as int]@);
            }
            match Spec::from_str(self.specs[i].as_str()) {
                Ok(spec) => {
                    let ghost before = events.deep_view();
                    events.push(Event::NewSpec(spec));
                    assert(events.deep_view() =~= before.push(EventView::NewSpec(spec@)));
                },
                Err(_) => {},
            }
            i += 1;
        }
        assert(all.take(i as int) =~= all);
        events
    }
}

} // verus!
