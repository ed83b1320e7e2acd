use vstd::prelude::*;
use crate::queue::{QueueView, receive_n, receive_step};
use crate::relay::{RelayView, relay_wf, spec_register, spec_send, spec_send_all};

verus! {

/// Receiving as many times as messages are pending hands out exactly the
/// pending messages, oldest first.
pub proof fn lemma_receive_all(q: QueueView)
    ensures
        receive_n(q, q.pending.len()) == q.pending,
    decreases q.pending.len(),
{
    if q.pending.len() > 0 {
        let next = receive_step(q).0;
        lemma_receive_all(next);
        assert(seq![q.pending[0]] + next.pending =~= q.pending);
    } else {
        assert(q.pending =~= Seq::<String>::empty());
    }
}

/// Sending a run of messages keeps the relay's invariant and its current
/// dispatcher, appends the run to the current queue, and leaves every other
/// queue as it was.
pub proof fn lemma_send_all(r: RelayView, msgs: Seq<String>)
    requires
        relay_wf(r),
    ensures
        ({
            let s = spec_send_all(r, msgs);
            &&& relay_wf(s)
            &&& s.current == r.current
            &&& s.queues.len() == r.queues.len()
            &&& forall|i: int|
                0 <= i < r.queues.len() && r.current != Some(i as nat) ==> #[trigger] s.queues[i]
                    == r.queues[i]
            &&& r.current matches Some(c) ==> s.queues[c as int].pending == r.queues[c as int].pending
                + msgs
        }),
    decreases msgs.len(),
{
    if msgs.len() > 0 {
        lemma_send_all(r, msgs.drop_last());
        let p = spec_send_all(r, msgs.drop_last());
        match r.current {
            Some(c) => {
                assert(r.queues[c as int].pending + msgs.drop_last() + seq![msgs.last()]
                    =~= r.queues[c as int].pending + msgs);
                assert(p.queues[c as int].pending.push(msgs.last()) =~= r.queues[c as int].pending
                    + msgs);
            },
            None => {},
        }
    } else {
        match r.current {
            Some(c) => {
                assert(r.queues[c as int].pending + msgs =~= r.queues[c as int].pending);
            },
            None => {},
        }
    }
}

/// Messages from one producer, with no registration in between, reach the
/// current dispatcher in the order they were sent, each exactly once, after
/// whatever was already pending for it. No other dispatcher receives any of
/// them.
pub proof fn law_single_producer_order(r: RelayView, msgs: Seq<String>)
    requires
        relay_wf(r),
        r.current is Some,
    ensures
        ({
            let s = spec_send_all(r, msgs);
            let c = r.current->0 as int;
            &&& receive_n(s.queues[c], s.queues[c].pending.len()) == r.queues[c].pending + msgs
            &&& forall|i: int| 0 <= i < r.queues.len() && i != c ==> #[trigger] s.queues[i] == r.queues[i]
        }),
{
    lemma_send_all(r, msgs);
    let s = spec_send_all(r, msgs);
    lemma_receive_all(s.queues[r.current->0 as int]);
}

/// Before any registration, sending never changes the relay: no callback is
/// ever invoked.
pub proof fn law_no_op_before_registration(r: RelayView, msgs: Seq<String>)
    requires
        relay_wf(r),
        r.current is None,
    ensures
        spec_send_all(r, msgs) == r,
{
    lemma_send_all(r, msgs);
    assert(spec_send_all(r, msgs).queues =~= r.queues);
}

/// After a registration, every message sent reaches only the new dispatcher.
/// Every earlier dispatcher keeps exactly what was pending for it, has lost
/// its producer, and stops once it has drained that.
pub proof fn law_reregistration_orphans(r: RelayView, msgs: Seq<String>)
    requires
        relay_wf(r),
    ensures
        ({
            let s = spec_send_all(spec_register(r), msgs);
            let n = r.queues.len() as int;
            &&& s.current == Some(n as nat)
            &&& s.queues.len() == n + 1
            &&& receive_n(s.queues[n], s.queues[n].pending.len()) == msgs
            &&& forall|i: int|
                0 <= i < n ==> (#[trigger] s.queues[i]).pending == r.queues[i].pending
                    && !s.queues[i].open
                    && receive_n(s.queues[i], s.queues[i].pending.len()) == r.queues[i].pending
        }),
{
    let g = spec_register(r);
    assert(relay_wf(g));
    lemma_send_all(g, msgs);
    let s = spec_send_all(g, msgs);
    let n = r.queues.len() as int;
    assert(Seq::<String>::empty() + msgs =~= msgs);
    lemma_receive_all(s.queues[n]);
    assert forall|i: int| 0 <= i < n implies (#[trigger] s.queues[i]).pending == r.queues[i].pending
        && !s.queues[i].open && receive_n(s.queues[i], s.queues[i].pending.len())
        == r.queues[i].pending by {
        lemma_receive_all(s.queues[i]);
    }
}

} // verus!
