//! Events moved from the input tasks to the manager over the bounded FIFO bus.

use vstd::prelude::*;

verus! {

/// One input event, moved once through the event bus to the manager.
#[derive(PartialEq, Eq, Structural, Clone, Copy, Debug)]
pub enum Events {
    /// A confirmed button press; `true` means the press was held long.
    ButtonPress(bool),
    /// One encoder detent; `true` means the value should grow.
    EncoderTurn(bool),
    /// The on/off switch settled at a new position; `true` means on.
    SwitchToggle(bool),
    /// The timeout coordinator saw no activity for the whole window.
    ModeTimeout,
    /// The save coordinator asks for the store to be persisted now.
    SaveStore,
}

/// How many events the bus holds before producers must wait.
pub const EVENT_BUS_CAPACITY: usize = 10;

/// The bounded FIFO bus between the input tasks and the manager: events are
/// delivered in send order and never dropped. In the running system a
/// producer suspends while the bus is full and the consumer suspends while
/// it is empty; this model reports instead what the caller must wait for.
pub struct EventBus {
    queue: Vec<Events>,
}

impl EventBus {
    /// The events currently queued, oldest first.
    pub closed spec fn view(self) -> Seq<Events> {
        self.queue@
    }

    /// An empty bus.
    pub fn new() -> (r: Self)
        ensures
            r@.len() == 0,
    {
        EventBus { queue: Vec::new() }
    }

    /// How many events are waiting.
    pub fn len(&self) -> (r: usize)
        ensures
            r == self@.len(),
    {
        self.queue.len()
    }

    /// Append an event unless the bus is full; a refused event is the
    /// producer's to retry once the consumer has caught up, so nothing is
    /// ever dropped.
    pub fn try_send(&mut self, event: Events) -> (accepted: bool)
        ensures
            accepted == (old(self)@.len() < EVENT_BUS_CAPACITY),
            accepted ==> final(self)@ == old(self)@.push(event),
            !accepted ==> final(self)@ == old(self)@,
    {
        if self.queue.len() < EVENT_BUS_CAPACITY {
            self.queue.push(event);
            true
        } else {
            false
        }
    }

    /// Take the oldest event, if any: delivery happens strictly in send
    /// order.
    pub fn try_receive(&mut self) -> (r: Option<Events>)
        ensures
            old(self)@.len() == 0 ==> r is None && final(self)@ == old(self)@,
            old(self)@.len() > 0 ==> r == Some(old(self)@[0]) && final(self)@ == old(
                self,
            )@.drop_first(),
    {
        if self.queue.len() == 0 {
            None
        } else {
            let event = self.queue.remove(0);
            proof {
                assert(self.queue@ =~= old(self).queue@.drop_first());
            }
            Some(event)
        }
    }
}

} // verus!
