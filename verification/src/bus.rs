use vstd::prelude::*;
use crate::event::{Event, EventV};

verus! {

/// Ordered single-writer/single-reader queue of events, decoupling stanza
/// classification (the producer) from command recognition (the consumer).
/// Its view is the sequence of queued events, oldest first.
pub struct EventBus {
    q: Vec<Event>,
}

impl View for EventBus {
    type V = Seq<EventV>;

    closed spec fn view(&self) -> Seq<EventV> {
        self.q@.map_values(|e: Event| e@)
    }
}

impl EventBus {
    /// An empty bus.
    pub fn new() -> (r: EventBus)
        ensures
            r@ == Seq::<EventV>::empty(),
    {
        let r = EventBus { q: Vec::new() };
        proof {
            assert(r@ =~= Seq::<EventV>::empty());
        }
        r
    }

    /// How many events are queued.
    pub fn len(&self) -> (n: usize)
        ensures
            n == self@.len(),
    {
        self.q.len()
    }

    /// Whether no event is queued.
    pub fn is_empty(&self) -> (b: bool)
        ensures
            b == (self@.len() == 0),
    {
        self.q.len() == 0
    }

    /// Enqueue an event behind all events already queued.
    pub fn send(&mut self, e: Event)
        ensures
            final(self)@ == old(self)@.push(e@),
    {
        let ghost ev = e@;
        self.q.push(e);
        proof {
            assert(self@ =~= old(self)@.push(ev));
        }
    }

    /// Dequeue the oldest event, or report an empty bus.
    pub fn receive(&mut self) -> (r: Option<Event>)
        ensures
            old(self)@.len() == 0 ==> r is None && final(self)@ == old(self)@,
            old(self)@.len() > 0 ==> (r matches Some(e) && e@ == old(self)@[0]
                && final(self)@ == old(self)@.drop_first()),
    {
        if self.q.len() == 0 {
            None
        } else {
            let e = self.q.remove(0);
            proof {
                assert(self@ =~= old(self)@.drop_first());
            }
            Some(e)
        }
    }

    /// Dequeue every queued event; the result lists them in exactly the
    /// order in which they were enqueued.
    pub fn drain(&mut self) -> (out: Vec<Event>)
        ensures
            out@.map_values(|e: Event| e@) == old(self)@,
            final(self)@ == Seq::<EventV>::empty(),
    {
        let mut out: Vec<Event> = Vec::new();
        proof {
            assert(out@.map_values(|e: Event| e@) + self@ =~= old(self)@);
        }
        while self.len() > 0
            invariant
                out@.map_values(|e: Event| e@) + self@ == old(self)@,
            decreases self@.len(),
        {
            let next = self.receive();
            match next {
                Some(e) => {
                    let ghost before = out@.map_values(|e: Event| e@);
                    let ghost ev = e@;
                    out.push(e);
                    proof {
                        assert(out@.map_values(|e: Event| e@) =~= before.push(ev));
                        assert(out@.map_values(|e: Event| e@) + self@ =~= old(self)@);
                    }
                },
                None => {
                    proof {
                        assert(false);
                    }
                },
            }
        }
        proof {
            assert(self@ =~= Seq::<EventV>::empty());
            assert(out@.map_values(|e: Event| e@) + self@
                =~= out@.map_values(|e: Event| e@));
        }
        out
    }
}

} // verus!
