use vstd::prelude::*;

verus! {

use crate::outcome::Failure;

/// The outcome of one non-blocking receive on a channel. A blocking
/// receive is the same attempt repeated: `Empty` means a message may
/// still arrive, `Disconnected` means none ever will.
pub enum RecvOutcome {
    /// The oldest pending message, removed from the queue.
    Message(String),
    /// The queue is empty but senders remain; a blocking receive would
    /// wait here.
    Empty,
    /// The queue is empty and every sender has been dropped; iteration
    /// over the channel terminates here.
    Disconnected,
}

/// An ordered single-consumer message queue connecting some number of
/// producers to one consumer.
///
/// The exec state is the queue of messages sent but not yet received,
/// plus how many sender endpoints and whether the receiver endpoint are
/// still alive. Two ghost histories — everything ever sent and
/// everything ever received, in order — tie the queue to the law that
/// the consumer sees exactly the sent messages in send order.
pub struct Channel {
    /// Messages sent and not yet received, oldest first.
    pub pending: Vec<String>,
    /// How many sender endpoints are alive.
    pub senders: usize,
    /// Whether the receiver endpoint is alive.
    pub receiver_alive: bool,
    /// Every message ever sent, in send order.
    pub sent: Ghost<Seq<Seq<char>>>,
    /// Every message ever received, in receive order.
    pub received: Ghost<Seq<Seq<char>>>,
}

impl Channel {
    /// The channel's invariant: the send history is exactly the receive
    /// history followed by what is still queued. Everything received
    /// was sent, nothing is received twice, and order is preserved.
    pub open spec fn wf(&self) -> bool {
        self.sent@ == self.received@ + self.pending.deep_view()
    }

    /// A fresh channel with one sender endpoint and a live receiver.
    pub fn new() -> (c: Channel)
        ensures
            c.wf(),
            c.pending@.len() == 0,
            c.senders == 1,
            c.receiver_alive,
            c.sent@ == Seq::<Seq<char>>::empty(),
            c.received@ == Seq::<Seq<char>>::empty(),
    {
        let c = Channel {
            pending: Vec::new(),
            senders: 1,
            receiver_alive: true,
            sent: Ghost(Seq::empty()),
            received: Ghost(Seq::empty()),
        };
        proof {
            assert(c.sent@ =~= c.received@ + c.pending.deep_view());
        }
        c
    }

    /// Clones a sender endpoint, as a producer does before handing one
    /// to another worker.
    pub fn clone_sender(&mut self)
        requires
            old(self).wf(),
            old(self).senders > 0,
            old(self).senders < usize::MAX,
        ensures
            final(self).wf(),
            final(self).senders == old(self).senders + 1,
            final(self).pending == old(self).pending,
            final(self).receiver_alive == old(self).receiver_alive,
            final(self).sent == old(self).sent,
            final(self).received == old(self).received,
    {
        self.senders = self.senders + 1;
    }

    /// Drops one sender endpoint. When the last one goes, the channel
    /// is closed from the producing side: whatever is still queued can
    /// be received, and then iteration terminates.
    pub fn drop_sender(&mut self)
        requires
            old(self).wf(),
            old(self).senders > 0,
        ensures
            final(self).wf(),
            final(self).senders == old(self).senders - 1,
            final(self).pending == old(self).pending,
            final(self).receiver_alive == old(self).receiver_alive,
            final(self).sent == old(self).sent,
            final(self).received == old(self).received,
    {
        self.senders = self.senders - 1;
    }

    /// Drops the receiver endpoint; any later send fails.
    pub fn drop_receiver(&mut self)
        requires
            old(self).wf(),
            old(self).receiver_alive,
        ensures
            final(self).wf(),
            !final(self).receiver_alive,
            final(self).senders == old(self).senders,
            final(self).pending == old(self).pending,
            final(self).sent == old(self).sent,
            final(self).received == old(self).received,
    {
        self.receiver_alive = false;
    }

    /// Sends one message: it joins the back of the queue and the send
    /// history, provided the receiver is still there. A send after the
    /// receiver was dropped fails with `ChannelClosed` and changes
    /// nothing.
    pub fn send(&mut self, msg: String) -> (r: Result<(), Failure>)
        requires
            old(self).wf(),
            old(self).senders > 0,
        ensures
            final(self).wf(),
            final(self).senders == old(self).senders,
            final(self).receiver_alive == old(self).receiver_alive,
            final(self).received == old(self).received,
            !old(self).receiver_alive ==> r == Err::<(), Failure>(Failure::ChannelClosed)
                && final(self).pending == old(self).pending
                && final(self).sent == old(self).sent,
            old(self).receiver_alive ==> r == Ok::<(), Failure>(())
                && final(self).pending.deep_view() == old(self).pending.deep_view().push(msg@)
                && final(self).sent@ == old(self).sent@.push(msg@),
    {
        if !self.receiver_alive {
            return Err(Failure::ChannelClosed);
        }
        let ghost m = msg@;
        self.pending.push(msg);
        proof {
            assert(self.pending.deep_view() =~~= old(self).pending.deep_view().push(m));
        }
        self.sent = Ghost(self.sent@.push(m));
        proof {
            assert(self.sent@ =~~= self.received@ + self.pending.deep_view());
        }
        Ok(())
    }

    /// One non-blocking receive. If a message is queued, the oldest one
    /// comes out and joins the receive history. On an empty queue the
    /// answer tells the consumer whether to wait (`Empty`: senders
    /// remain) or to stop (`Disconnected`: the last sender is gone and
    /// nothing can arrive any more).
    pub fn try_recv(&mut self) -> (r: RecvOutcome)
        requires
            old(self).wf(),
            old(self).receiver_alive,
        ensures
            final(self).wf(),
            final(self).senders == old(self).senders,
            final(self).receiver_alive,
            final(self).sent == old(self).sent,
            old(self).pending@.len() > 0 ==> (r matches RecvOutcome::Message(m)
                && m@ == old(self).pending.deep_view()[0]
                && m@ == old(self).sent@[old(self).received@.len() as int]
                && final(self).received@ == old(self).received@.push(m@)
                && final(self).pending.deep_view() == old(self).pending.deep_view().drop_first()),
            old(self).pending@.len() == 0 && old(self).senders > 0 ==> (r is Empty
                && final(self).pending == old(self).pending
                && final(self).received == old(self).received),
            old(self).pending@.len() == 0 && old(self).senders == 0 ==> (r is Disconnected
                && final(self).pending == old(self).pending
                && final(self).received == old(self).received),
    {
        if self.pending.len() > 0 {
            let msg = self.pending.remove(0);
            proof {
                assert(self.pending.deep_view() =~~= old(self).pending.deep_view().drop_first());
            }
            self.received = Ghost(self.received@.push(msg@));
            proof {
                assert(self.sent@ =~~= self.received@ + self.pending.deep_view());
            }
            RecvOutcome::Message(msg)
        } else if self.senders > 0 {
            RecvOutcome::Empty
        } else {
            RecvOutcome::Disconnected
        }
    }

    /// The consumer's whole iteration once the last sender is gone:
    /// receive until the channel reports `Disconnected`. It provably
    /// terminates — this is the guarantee that a consumer draining a
    /// closed channel does not hang — and it returns exactly the
    /// messages that were still queued, in order, leaving the receive
    /// history equal to the send history.
    pub fn drain(&mut self) -> (r: Vec<String>)
        requires
            old(self).wf(),
            old(self).receiver_alive,
            old(self).senders == 0,
        ensures
            final(self).wf(),
            final(self).senders == 0,
            final(self).receiver_alive,
            final(self).pending@.len() == 0,
            final(self).sent == old(self).sent,
            r.deep_view() == old(self).pending.deep_view(),
            final(self).received@ == old(self).received@ + old(self).pending.deep_view(),
            final(self).received@ == final(self).sent@,
    {
        let mut out: Vec<String> = Vec::new();
        proof {
            assert(out.deep_view() + self.pending.deep_view() =~~= self.pending.deep_view());
            assert(self.received@ + out.deep_view() =~~= self.received@);
        }
        loop
            invariant
                self.wf(),
                self.receiver_alive,
                self.senders == 0,
                self.sent == old(self).sent,
                out.deep_view() + self.pending.deep_view() == old(self).pending.deep_view(),
                self.received@ == old(self).received@ + out.deep_view(),
            decreases self.pending@.len(),
        {
            let ghost pending_before = self.pending.deep_view();
            let ghost out_before = out.deep_view();
            match self.try_recv() {
                RecvOutcome::Message(msg) => {
                    let ghost m = msg@;
                    out.push(msg);
                    proof {
                        assert(out.deep_view() =~~= out_before.push(m));
                        assert(out.deep_view() + self.pending.deep_view() =~~= old(
                            self,
                        ).pending.deep_view());
                        assert(self.received@ =~~= old(self).received@ + out.deep_view());
                    }
                },
                RecvOutcome::Empty => {
                    proof {
                        assert(false);
                    }
                },
                RecvOutcome::Disconnected => {
                    proof {
                        assert(self.pending.deep_view() =~~= Seq::<Seq<char>>::empty());
                        assert(out.deep_view() + self.pending.deep_view() =~~= out.deep_view());
                        assert(self.received@ =~~= self.sent@);
                    }
                    return out;
                },
            }
        }
    }
}

/// Law: the consumer receives exactly what was sent, in send order. At
/// every reachable channel state the receive history is a prefix of the
/// send history, and once the queue is empty the two histories are
/// equal.
pub proof fn lemma_receive_order(c: &Channel)
    requires
        c.wf(),
    ensures
        c.received@ == c.sent@.take(c.received@.len() as int),
        c.pending@.len() == 0 ==> c.received@ == c.sent@,
{
    assert(c.sent@.take(c.received@.len() as int) =~= c.received@);
    if c.pending@.len() == 0 {
        assert(c.pending.deep_view() =~= Seq::<Seq<char>>::empty());
        assert(c.received@ =~= c.sent@);
    }
}

} // verus!
