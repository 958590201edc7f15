//! Ground contact tracking: a boolean grounded flag, valid for the
//! current frame only.
//!
//! Two interchangeable strategies stand behind one interface.  The
//! event-driven tracker folds the frame's contact events: any event naming
//! the ground sensor sets the flag on a start and clears it on a stop —
//! simultaneous contacts are deliberately not reference-counted, so a stop
//! clears the flag even while another contact is still active.  The
//! sweep-derived tracker simply takes the kinematic sweep's own report,
//! recomputed fresh every frame with no event memory.

use vstd::prelude::*;

verus! {

/// Whether a contact began or ended.
#[derive(Clone, Copy, PartialEq, Eq, Structural, Debug)]
pub enum ContactKind {
    Started,
    Stopped,
}

/// A collision event naming two opaque entity identifiers.
#[derive(Clone, Copy, PartialEq, Eq, Structural, Debug)]
pub struct ContactEvent {
    pub kind: ContactKind,
    pub first: u64,
    pub second: u64,
}

impl ContactEvent {
    /// Whether the event names the given entity on either side.
    pub open spec fn names(self, id: u64) -> bool {
        self.first == id || self.second == id
    }
}

/// The grounded flag after folding a frame's events over a starting
/// flag: the last event naming the sensor wins, any other event is
/// ignored.
pub open spec fn spec_grounded_after(g: bool, sensor: u64, events: Seq<ContactEvent>) -> bool
    decreases events.len(),
{
    if events.len() == 0 {
        g
    } else {
        let e = events[0];
        let g2 = if e.names(sensor) {
            e.kind == ContactKind::Started
        } else {
            g
        };
        spec_grounded_after(g2, sensor, events.subrange(1, events.len() as int))
    }
}

/// A per-frame source of the grounded flag.  Observing a frame's contact
/// events and sweep report first, then reading `is_grounded`, gives the
/// flag for that frame.
pub trait GroundedProvider: Sized {
    /// The flag the tracker currently holds.
    spec fn grounded_view(&self) -> bool;

    /// The tracker after observing one frame.
    spec fn next_state(self, contacts: Seq<ContactEvent>, sweep_hit: bool) -> Self;

    /// Feeds the tracker one frame's contact events and sweep report.
    fn observe(&mut self, contacts: &Vec<ContactEvent>, sweep_hit: bool)
        ensures
            *final(self) == (*old(self)).next_state(contacts@, sweep_hit),
    ;

    /// Reads the grounded flag for the current frame.
    fn is_grounded(&self) -> (b: bool)
        ensures
            b == self.grounded_view(),
    ;
}

/// Event-driven strategy: the flag follows contact start/stop events that
/// name the designated ground-sensor proxy.
#[derive(Clone, Copy, PartialEq, Eq, Structural, Debug)]
pub struct EventDrivenTracker {
    pub grounded: bool,
    /// Entity identifier of the ground-sensor contact proxy.
    pub sensor: u64,
}

impl EventDrivenTracker {
    /// A tracker for the given sensor, initially airborne.
    pub fn new(sensor: u64) -> (r: EventDrivenTracker)
        ensures
            r.grounded == false,
            r.sensor == sensor,
    {
        EventDrivenTracker { grounded: false, sensor }
    }
}

impl GroundedProvider for EventDrivenTracker {
    open spec fn grounded_view(&self) -> bool {
        self.grounded
    }

    open spec fn next_state(self, contacts: Seq<ContactEvent>, sweep_hit: bool) -> Self {
        EventDrivenTracker {
            grounded: spec_grounded_after(self.grounded, self.sensor, contacts),
            sensor: self.sensor,
        }
    }

    fn observe(&mut self, contacts: &Vec<ContactEvent>, sweep_hit: bool) {
        let ghost g0: bool = self.grounded;
        let mut i: usize = 0;
        proof {
            assert(contacts@.subrange(0, contacts@.len() as int) =~= contacts@);
        }
        while i < contacts.len()
            invariant
                0 <= i <= contacts@.len(),
                self.sensor == old(self).sensor,
                spec_grounded_after(g0, self.sensor, contacts@) == spec_grounded_after(
                    self.grounded,
                    self.sensor,
                    contacts@.subrange(i as int, contacts@.len() as int),
                ),
            decreases contacts@.len() - i,
        {
            let ghost rest = contacts@.subrange(i as int, contacts@.len() as int);
            let e: ContactEvent = contacts[i];
            if e.first == self.sensor || e.second == self.sensor {
                self.grounded = matches!(e.kind, ContactKind::Started);
            }
            proof {
                assert(rest[0] == contacts@[i as int]);
                assert(rest.subrange(1, rest.len() as int) =~= contacts@.subrange(
                    i + 1,
                    contacts@.len() as int,
                ));
            }
            i = i + 1;
        }
        proof {
            assert(contacts@.subrange(contacts@.len() as int, contacts@.len() as int) =~= Seq::<
                ContactEvent,
            >::empty());
        }
    }

    fn is_grounded(&self) -> (b: bool) {
        self.grounded
    }
}

/// Sweep-derived strategy: the flag is whatever the kinematic move
/// primitive reported for this frame.
#[derive(Clone, Copy, PartialEq, Eq, Structural, Debug)]
pub struct SweepDerivedTracker {
    pub grounded: bool,
}

impl SweepDerivedTracker {
    /// A tracker that has not yet seen a sweep, so airborne.
    pub fn new() -> (r: SweepDerivedTracker)
        ensures
            r.grounded == false,
    {
        SweepDerivedTracker { grounded: false }
    }
}

impl GroundedProvider for SweepDerivedTracker {
    open spec fn grounded_view(&self) -> bool {
        self.grounded
    }

    open spec fn next_state(self, contacts: Seq<ContactEvent>, sweep_hit: bool) -> Self {
        SweepDerivedTracker { grounded: sweep_hit }
    }

    fn observe(&mut self, contacts: &Vec<ContactEvent>, sweep_hit: bool) {
        self.grounded = sweep_hit;
    }

    fn is_grounded(&self) -> (b: bool) {
        self.grounded
    }
}

} // verus!
