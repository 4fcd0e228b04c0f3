//! A bounded buffer of MIDI events for one processing block.
//!
//! The buffer holds at most [`MAX_MIDI_EVENTS`] events; a push beyond that
//! is dropped and remembered as an overflow until the next clear.

use vstd::prelude::*;

verus! {

/// Maximum number of MIDI events per processing block.
pub const MAX_MIDI_EVENTS: usize = 1024;

/// Buffer of MIDI events in the order they were pushed.
pub struct MidiBuffer<E> {
    events: Vec<E>,
    overflowed: bool,
}

impl<E> MidiBuffer<E> {
    /// The events in the buffer, in push order.
    pub closed spec fn events(&self) -> Seq<E> {
        self.events@
    }

    /// Whether a push was dropped since the last clear.
    pub closed spec fn overflowed(&self) -> bool {
        self.overflowed
    }

    /// An empty buffer with room for [`MAX_MIDI_EVENTS`] events.
    pub fn new() -> (b: Self)
        ensures
            b.events().len() == 0,
            !b.overflowed(),
    {
        MidiBuffer { events: Vec::with_capacity(MAX_MIDI_EVENTS), overflowed: false }
    }

    /// Removes every event and forgets an overflow.
    pub fn clear(&mut self)
        ensures
            final(self).events().len() == 0,
            !final(self).overflowed(),
    {
        self.events.clear();
        self.overflowed = false;
    }

    /// The number of events in the buffer.
    pub fn len(&self) -> (r: usize)
        ensures
            r == self.events().len(),
    {
        self.events.len()
    }

    /// Whether the buffer holds no event.
    pub fn is_empty(&self) -> (r: bool)
        ensures
            r == (self.events().len() == 0),
    {
        self.events.len() == 0
    }

    /// Whether a push was dropped since the last clear.
    pub fn has_overflowed(&self) -> (r: bool)
        ensures
            r == self.overflowed(),
    {
        self.overflowed
    }

    /// Appends an event when there is room and answers whether it was
    /// stored; a full buffer drops it and records the overflow.
    pub fn push(&mut self, event: E) -> (r: bool)
        ensures
            r == (old(self).events().len() < MAX_MIDI_EVENTS),
            r ==> final(self).events() == old(self).events().push(event),
            r ==> final(self).overflowed() == old(self).overflowed(),
            !r ==> final(self).events() == old(self).events(),
            !r ==> final(self).overflowed(),
            old(self).events().len() <= MAX_MIDI_EVENTS ==> final(self).events().len() <= MAX_MIDI_EVENTS,
    {
        if self.events.len() < MAX_MIDI_EVENTS {
            self.events.push(event);
            true
        } else {
            self.overflowed = true;
            false
        }
    }

    /// The events in the buffer, in push order.
    pub fn as_slice(&self) -> (r: &[E])
        ensures
            r@ == self.events(),
    {
        self.events.as_slice()
    }
}

impl<E> Default for MidiBuffer<E> {
    fn default() -> (b: Self)
        ensures
            b.events().len() == 0,
            !b.overflowed(),
    {
        MidiBuffer::new()
    }
}

} // verus!
