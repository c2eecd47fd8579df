//! Detected events, the bounded queue they travel through, and the scripted
//! response to each of them.
//!
//! The detector hands events to a dispatcher thread through a bounded
//! first-in-first-out queue.  When the queue is full the oldest event is
//! dropped, so a slow handler can delay reactions but never block detection.
//! The response to an event is computed here as a plain sequence of timed key
//! presses; performing those presses is left to the caller.

use vstd::prelude::*;

use crate::dsp::CorrelationScore;

verus! {

/// A detected acoustic event.
#[derive(Clone, Copy, Debug, PartialEq, Eq, Structural)]
pub enum FroskEvent {
    /// The window matched the reference waveform; carries the triggering
    /// score.
    FishBite { score: CorrelationScore },
}

/// A key the scripted response can press.
#[derive(Clone, Copy, Debug, PartialEq, Eq, Structural)]
pub enum ActionKey {
    F9,
    F10,
}

/// One step of the scripted response: press a key, then pause.
#[derive(Clone, Copy, Debug, PartialEq, Eq, Structural)]
pub struct KeyAction {
    pub key: ActionKey,
    /// How long to pause after the press, in milliseconds.
    pub delay_after_ms: u32,
}

/// The scripted response to an event: for a bite, one reel-in press followed
/// by a second of pause, then ten confirmation presses spaced 200 ms apart.
/// The caller performs the presses and pauses; computing the script never
/// fails.
pub fn handle_event(event: &FroskEvent) -> (plan: Vec<KeyAction>)
    ensures
        plan@.len() == 11,
        plan@[0] == (KeyAction { key: ActionKey::F9, delay_after_ms: 1000 }),
        forall|i: int|
            1 <= i < 11 ==> plan@[i] == (KeyAction { key: ActionKey::F10, delay_after_ms: 200 }),
{
    match event {
        FroskEvent::FishBite { score: _ } => {
            let mut plan: Vec<KeyAction> = Vec::with_capacity(11);
            plan.push(KeyAction { key: ActionKey::F9, delay_after_ms: 1000 });
            let mut i: usize = 0;
            while i < 10
                invariant
                    i <= 10,
                    plan@.len() == i + 1,
                    plan@[0] == (KeyAction { key: ActionKey::F9, delay_after_ms: 1000 }),
                    forall|j: int|
                        1 <= j < i + 1 ==> plan@[j] == (KeyAction {
                            key: ActionKey::F10,
                            delay_after_ms: 200,
                        }),
                decreases 10 - i,
            {
                plan.push(KeyAction { key: ActionKey::F10, delay_after_ms: 200 });
                i = i + 1;
            }
            plan
        },
    }
}

/// The bounded first-in-first-out queue between detector and dispatcher.
///
/// Its view is the queued events, oldest first.  Pushing onto a full queue
/// drops the oldest event.
pub struct EventQueue {
    events: std::collections::VecDeque<FroskEvent>,
    capacity: usize,
}

impl View for EventQueue {
    type V = Seq<FroskEvent>;

    closed spec fn view(&self) -> Seq<FroskEvent> {
        self.events@
    }
}

impl EventQueue {
    /// The queue never outgrows its positive capacity.
    pub open spec fn wf(self) -> bool {
        &&& self.spec_capacity() > 0
        &&& self@.len() <= self.spec_capacity()
    }

    /// The queue's fixed capacity.
    pub closed spec fn spec_capacity(self) -> usize {
        self.capacity
    }

    /// An empty queue holding at most `capacity` events.
    pub fn new(capacity: usize) -> (q: EventQueue)
        requires
            capacity > 0,
        ensures
            q.wf(),
            q@ == Seq::<FroskEvent>::empty(),
            q.spec_capacity() == capacity,
    {
        EventQueue { events: std::collections::VecDeque::new(), capacity }
    }

    /// How many events are waiting.
    pub fn len(&self) -> (n: usize)
        ensures
            n == self@.len(),
    {
        self.events.len()
    }

    /// Appends an event; on a full queue the oldest event is dropped to make
    /// room, so the newest events always survive.
    pub fn push(&mut self, event: FroskEvent)
        requires
            old(self).wf(),
        ensures
            final(self).wf(),
            final(self).spec_capacity() == old(self).spec_capacity(),
            old(self)@.len() < old(self).spec_capacity() ==> final(self)@ == old(self)@.push(event),
            old(self)@.len() == old(self).spec_capacity() ==> final(self)@ == old(self)@.skip(
                1,
            ).push(event),
    {
        if self.events.len() == self.capacity {
            let _ = self.events.pop_front();
            proof {
                assert(self.events@ =~= old(self)@.skip(1));
            }
        }
        self.events.push_back(event);
    }

    /// Removes and returns the oldest waiting event, if any.
    pub fn pop_front(&mut self) -> (r: Option<FroskEvent>)
        requires
            old(self).wf(),
        ensures
            final(self).wf(),
            final(self).spec_capacity() == old(self).spec_capacity(),
            match r {
                Some(e) => {
                    &&& old(self)@.len() > 0
                    &&& e == old(self)@[0]
                    &&& final(self)@ == old(self)@.skip(1)
                },
                None => {
                    &&& old(self)@.len() == 0
                    &&& final(self)@ == old(self)@
                },
            },
    {
        let r = self.events.pop_front();
        proof {
            if old(self)@.len() > 0 {
                assert(self.events@ =~= old(self)@.skip(1));
            }
        }
        r
    }
}

} // verus!
