use vstd::prelude::*;
use crate::colonist::{Colonist, spec_full_name};
use crate::text::{decimal, push_decimal};

verus! {

/// Something that happened aboard during a tick.
#[derive(Debug)]
pub enum WorldEvent {
    PodDestroyed(Colonist),
}

/// The log line of a lost pod: its colonist's name and age.
pub open spec fn pod_lost_message(c: Colonist) -> Seq<char> {
    "POD LOST — "@ + spec_full_name(c.first_name@, c.last_name@) + " ("@ + decimal(c.age as nat)
        + ") has perished"@
}

/// The log line of an event.
pub open spec fn spec_message(e: WorldEvent) -> Seq<char> {
    match e {
        WorldEvent::PodDestroyed(c) => pod_lost_message(c),
    }
}

impl WorldEvent {
    pub fn message(&self) -> (m: String)
        ensures
            m@ == spec_message(*self),
    {
        match self {
            WorldEvent::PodDestroyed(c) => {
                let mut m = String::from_str("POD LOST — ");
                m.append(c.full_name().as_str());
                m.append(" (");
                push_decimal(&mut m, c.age as u64);
                m.append(") has perished");
                m
            },
        }
    }
}

/// The events of one tick, in the order they happened.
#[derive(Debug)]
pub struct WorldEvents {
    events: Vec<WorldEvent>,
}

impl View for WorldEvents {
    type V = Seq<WorldEvent>;

    closed spec fn view(&self) -> Seq<WorldEvent> {
        self.events@
    }
}

impl WorldEvents {
    pub fn new() -> (e: WorldEvents)
        ensures
            e@ == Seq::<WorldEvent>::empty(),
    {
        WorldEvents { events: Vec::new() }
    }

    pub fn push(&mut self, event: WorldEvent)
        ensures
            final(self)@ == old(self)@.push(event),
    {
        self.events.push(event);
    }

    /// Records that a pod failed and its colonist perished.
    pub fn pod_destroyed(&mut self, colonist: Colonist)
        ensures
            final(self)@ == old(self)@.push(WorldEvent::PodDestroyed(colonist)),
    {
        self.push(WorldEvent::PodDestroyed(colonist))
    }

    /// The log lines of the events, in order.
    pub fn into_messages(self) -> (msgs: Vec<String>)
        ensures
            msgs@.len() == self@.len(),
            forall|i: int| 0 <= i < self@.len() ==> #[trigger] msgs@[i]@ == spec_message(self@[i]),
    {
        let mut msgs: Vec<String> = Vec::new();
        let mut i: usize = 0;
        while i < self.events.len()
            invariant
                i <= self.events@.len(),
                msgs@.len() == i,
                forall|j: int| 0 <= j < i ==> #[trigger] msgs@[j]@ == spec_message(self.events@[j]),
            decreases self.events@.len() - i,
        {
            msgs.push(self.events[i].message());
            i = i + 1;
        }
        msgs
    }
}

} // verus!
