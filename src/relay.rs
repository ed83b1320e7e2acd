use vstd::prelude::*;
use crate::queue::{DeliveryQueue, QueueView, Receive, receive_step};

verus! {

/// Mathematical model of the relay: the dispatcher whose queue takes new
/// messages, if any callback was registered, and the queue of every
/// dispatcher created so far, indexed by dispatcher.
pub struct RelayView {
    pub current: Option<nat>,
    pub queues: Seq<QueueView>,
}

/// The relay's invariant: exactly the current dispatcher's queue is open.
/// Every earlier dispatcher has lost its producer and only drains.
pub open spec fn relay_wf(r: RelayView) -> bool {
    &&& match r.current {
        Some(c) => c < r.queues.len(),
        None => true,
    }
    &&& forall|i: int|
        0 <= i < r.queues.len() ==> ((#[trigger] r.queues[i]).open <==> r.current == Some(i as nat))
}

/// Registration: retire the current dispatcher's producer side, add a new
/// dispatcher with an empty open queue, and make it current.
pub open spec fn spec_register(r: RelayView) -> RelayView {
    let retired = match r.current {
        Some(c) => r.queues.update(c as int, QueueView { pending: r.queues[c as int].pending, open: false }),
        None => r.queues,
    };
    RelayView {
        current: Some(r.queues.len()),
        queues: retired.push(QueueView { pending: Seq::empty(), open: true }),
    }
}

/// Sending: the message joins the back of the current dispatcher's queue; with
/// no callback registered nothing changes.
pub open spec fn spec_send(r: RelayView, msg: String) -> RelayView {
    match r.current {
        Some(c) => RelayView {
            current: r.current,
            queues: r.queues.update(c as int, QueueView { pending: r.queues[c as int].pending.push(msg), open: true }),
        },
        None => r,
    }
}

/// Sending each of `msgs` in turn, first to last.
pub open spec fn spec_send_all(r: RelayView, msgs: Seq<String>) -> RelayView
    decreases msgs.len(),
{
    if msgs.len() == 0 {
        r
    } else {
        spec_send(spec_send_all(r, msgs.drop_last()), msgs.last())
    }
}

/// One receive by dispatcher `d`: its queue steps, the others stay.
pub open spec fn spec_receive(r: RelayView, d: nat) -> RelayView {
    RelayView { current: r.current, queues: r.queues.update(d as int, receive_step(r.queues[d as int]).0) }
}

/// Where `send` put a message.
#[derive(PartialEq, Eq, Structural, Clone, Copy, Debug)]
pub enum SendOutcome {
    /// Queued for the dispatcher with this index.
    Queued(usize),
    /// No callback is registered: the message was dropped, which is normal.
    NoCallback,
}

/// Process-wide relay state: a single slot naming the current dispatcher,
/// replaced on every registration, and the delivery queue of each dispatcher.
///
/// A dispatcher is named by the index it got at registration. Its queue stays
/// here after it was replaced, so that it can drain what was already sent.
pub struct Relay {
    current: Option<usize>,
    queues: Vec<DeliveryQueue>,
}

impl View for Relay {
    type V = RelayView;

    closed spec fn view(&self) -> RelayView {
        RelayView {
            current: match self.current {
                Some(c) => Some(c as nat),
                None => None,
            },
            queues: self.queues@.map_values(|q: DeliveryQueue| q@),
        }
    }
}

impl Relay {
    /// Only the current dispatcher's queue accepts messages.
    pub open spec fn wf(&self) -> bool {
        relay_wf(self@)
    }

    /// The relay before any registration.
    pub fn new() -> (r: Relay)
        ensures
            r.wf(),
            r@.current is None,
            r@.queues == Seq::<QueueView>::empty(),
    {
        let r = Relay { current: None, queues: Vec::new() };
        assert(r@.queues =~= Seq::<QueueView>::empty());
        r
    }

    /// The dispatcher that new messages go to, if a callback is registered.
    pub fn current(&self) -> (r: Option<usize>)
        ensures
            match r {
                Some(c) => self@.current == Some(c as nat),
                None => self@.current is None,
            },
    {
        self.current
    }

    /// Number of dispatchers created so far.
    pub fn dispatcher_count(&self) -> (r: usize)
        ensures
            r == self@.queues.len(),
    {
        self.queues.len()
    }

    /// Creates a new dispatcher's queue and makes it the destination of every
    /// later message, in place of the previous one. Returns the new
    /// dispatcher's index.
    pub fn register(&mut self) -> (r: usize)
        requires
            old(self).wf(),
            old(self)@.queues.len() < usize::MAX,
        ensures
            final(self).wf(),
            final(self)@ == spec_register(old(self)@),
            r == old(self)@.queues.len(),
    {
        let ghost before = self@;
        match self.current {
            Some(c) => {
                self.queues[c].close();
            },
            None => {},
        }
        let id = self.queues.len();
        self.queues.push(DeliveryQueue::new());
        self.current = Some(id);
        assert(self@.queues =~= spec_register(before).queues);
        id
    }

    /// Hands `msg` to the current dispatcher's queue; without a registered
    /// callback the message is dropped and the caller is neither blocked nor
    /// failed.
    pub fn send(&mut self, msg: String) -> (r: SendOutcome)
        requires
            old(self).wf(),
        ensures
            final(self).wf(),
            final(self)@ == spec_send(old(self)@, msg),
            match r {
                SendOutcome::Queued(d) => old(self)@.current == Some(d as nat),
                SendOutcome::NoCallback => old(self)@.current is None,
            },
    {
        let ghost before = self@;
        match self.current {
            Some(c) => {
                assert(self@.queues[c as int].open);
                let _ = self.queues[c].send(msg);
                assert(self@.queues =~= spec_send(before, msg).queues);
                SendOutcome::Queued(c)
            },
            None => SendOutcome::NoCallback,
        }
    }

    /// Registration as the host asks for it: a new dispatcher becomes current,
    /// and one test message is sent to it at once to exercise the path. The
    /// call returns with that message still pending: registering does not
    /// wait for any delivery. Returns the new dispatcher's index.
    pub fn register_callback(&mut self) -> (r: usize)
        requires
            old(self).wf(),
            old(self)@.queues.len() < usize::MAX,
        ensures
            final(self).wf(),
            r == old(self)@.queues.len(),
            final(self)@.current == Some(r as nat),
            final(self)@.queues.len() == r + 1,
            final(self)@.queues[r as int].open,
            final(self)@.queues[r as int].pending.len() == 1,
            final(self)@.queues[r as int].pending[0]@ == "Hello callback!"@,
            forall|i: int|
                0 <= i < r ==> #[trigger] final(self)@.queues[i] == spec_register(old(self)@).queues[i],
    {
        let id = self.register();
        let msg = "Hello callback!".to_owned();
        self.send(msg);
        id
    }

    /// One receive by dispatcher `d` on its own queue.
    pub fn receive(&mut self, d: usize) -> (r: Receive)
        requires
            old(self).wf(),
            d < old(self)@.queues.len(),
        ensures
            final(self).wf(),
            final(self)@ == spec_receive(old(self)@, d as nat),
            match r {
                Receive::Message(m) => receive_step(old(self)@.queues[d as int]).1 == Some(m),
                Receive::Empty => old(self)@.queues[d as int].pending.len() == 0 && old(self)@.queues[d as int].open,
                Receive::Closed => old(self)@.queues[d as int].pending.len() == 0 && !old(self)@.queues[d as int].open,
            },
    {
        let ghost before = self@;
        let r = self.queues[d].receive();
        assert(self@.queues =~= spec_receive(before, d as nat).queues);
        r
    }
}

} // verus!
