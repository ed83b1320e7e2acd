use vstd::prelude::*;
use std::collections::VecDeque;

verus! {

/// Mathematical model of a delivery queue: the messages not yet received,
/// oldest first, and whether its producer side is still attached.
pub struct QueueView {
    pub pending: Seq<String>,
    pub open: bool,
}

/// What a consumer gets from one attempt to receive.
#[derive(Clone, Debug, PartialEq, Eq)]
pub enum Receive {
    /// The oldest pending message, now removed from the queue.
    Message(String),
    /// Nothing is pending, but a producer may still send: the consumer waits.
    Empty,
    /// Nothing is pending and no producer is left: the consumer stops.
    Closed,
}

/// A send was attempted on a queue whose producer side was retired.
#[derive(PartialEq, Eq, Structural, Clone, Copy, Debug)]
pub struct QueueClosed;

/// The result of one receive on a queue in state `q`, and the queue after it.
pub open spec fn receive_step(q: QueueView) -> (QueueView, Option<String>) {
    if q.pending.len() > 0 {
        (QueueView { pending: q.pending.drop_first(), open: q.open }, Some(q.pending[0]))
    } else {
        (q, None)
    }
}

/// The messages that `n` receives in a row hand out, starting from `q`.
pub open spec fn receive_n(q: QueueView, n: nat) -> Seq<String>
    decreases n,
{
    if n == 0 {
        Seq::empty()
    } else {
        let (next, got) = receive_step(q);
        match got {
            Some(m) => seq![m] + receive_n(next, (n - 1) as nat),
            None => Seq::empty(),
        }
    }
}

/// Unbounded first-in first-out queue of text messages between producers and
/// a single consumer.
///
/// Nothing bounds its length: a consumer that stalls lets it grow without
/// limit, which is acceptable only for the low message volume it serves.
pub struct DeliveryQueue {
    pending: VecDeque<String>,
    open: bool,
}

impl View for DeliveryQueue {
    type V = QueueView;

    closed spec fn view(&self) -> QueueView {
        QueueView { pending: self.pending@, open: self.open }
    }
}

impl DeliveryQueue {
    /// An empty queue with its producer side attached.
    pub fn new() -> (r: DeliveryQueue)
        ensures
            r@.pending == Seq::<String>::empty(),
            r@.open,
    {
        DeliveryQueue { pending: VecDeque::new(), open: true }
    }

    /// Number of messages not yet received.
    pub fn len(&self) -> (r: usize)
        ensures
            r == self@.pending.len(),
    {
        self.pending.len()
    }

    /// Whether the producer side is still attached.
    pub fn is_open(&self) -> (r: bool)
        ensures
            r == self@.open,
    {
        self.open
    }

    /// Appends `msg` behind every pending message, or refuses it once the
    /// producer side has been retired.
    pub fn send(&mut self, msg: String) -> (r: Result<(), QueueClosed>)
        ensures
            old(self)@.open ==> r is Ok && final(self)@ == (QueueView {
                pending: old(self)@.pending.push(msg),
                open: true,
            }),
            !old(self)@.open ==> r is Err && final(self)@ == old(self)@,
    {
        if self.open {
            self.pending.push_back(msg);
            Ok(())
        } else {
            Err(QueueClosed)
        }
    }

    /// Retires the producer side: no message is accepted afterwards, and the
    /// consumer stops once it has received what is already pending.
    pub fn close(&mut self)
        ensures
            final(self)@ == (QueueView { pending: old(self)@.pending, open: false }),
    {
        self.open = false;
    }

    /// Takes the oldest pending message; says whether the consumer should
    /// wait or stop when there is none.
    pub fn receive(&mut self) -> (r: Receive)
        ensures
            final(self)@ == receive_step(old(self)@).0,
            match r {
                Receive::Message(m) => receive_step(old(self)@).1 == Some(m),
                Receive::Empty => old(self)@.pending.len() == 0 && old(self)@.open,
                Receive::Closed => old(self)@.pending.len() == 0 && !old(self)@.open,
            },
    {
        match self.pending.pop_front() {
            Some(m) => Receive::Message(m),
            None => {
                if self.open {
                    Receive::Empty
                } else {
                    Receive::Closed
                }
            },
        }
    }
}

} // verus!
