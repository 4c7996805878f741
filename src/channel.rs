use vstd::prelude::*;
use std::collections::VecDeque;

verus! {

/// Why a non-blocking receive came back without a message.
#[derive(Debug, Clone, Copy, PartialEq, Eq, Structural)]
pub enum TryRecvError {
    /// Nothing is queued, but some producer end is still alive.
    Empty,
    /// Nothing is queued and every producer end is gone: nothing will come.
    Disconnected,
}

/// A send that found the consumer end gone; it hands the message back.
#[derive(Debug)]
pub struct SendError<T>(pub T);

/// The state of a channel as mathematics: what is queued, which producer
/// ends are alive, and the full history of what was sent and received.
pub struct ChannelModel<T> {
    /// Messages waiting for the consumer, oldest first, each tagged with the
    /// producer end that sent it.
    pub queue: Seq<(u64, T)>,
    /// Identifiers of the producer ends that have not been dropped.
    pub live: Set<u64>,
    /// The identifier the next producer end will get.
    pub next_sender: nat,
    /// Whether the consumer end still exists.
    pub receiver_alive: bool,
    /// Every message the queue accepted, in the order it accepted them.
    pub sent: Seq<(u64, T)>,
    /// Every message the consumer took, in the order it took them.
    pub received: Seq<(u64, T)>,
}

impl<T> ChannelModel<T> {
    /// What every reachable channel state satisfies: the consumer has taken
    /// a prefix of what was sent and the rest is queued, and producer
    /// identifiers are only ever handed out once.
    pub open spec fn inv(self) -> bool {
        &&& self.received + self.queue == self.sent
        &&& self.live.finite()
        &&& forall|id: u64| #[trigger] self.live.contains(id) ==> id < self.next_sender
        &&& self.next_sender <= u64::MAX
    }

    /// The number of live producer ends.
    pub open spec fn senders(self) -> nat {
        self.live.len()
    }
}

/// A fresh channel: one producer end (identifier 0), the consumer end, no
/// messages.
pub open spec fn new_spec<T>() -> ChannelModel<T> {
    ChannelModel {
        queue: Seq::empty(),
        live: set![0u64],
        next_sender: 1,
        receiver_alive: true,
        sent: Seq::empty(),
        received: Seq::empty(),
    }
}

/// Producer `id` offers `msg`: accepted at the back of the queue while the
/// consumer exists, refused otherwise.
pub open spec fn send_spec<T>(m: ChannelModel<T>, id: u64, msg: T) -> (bool, ChannelModel<T>) {
    if m.receiver_alive {
        (true, ChannelModel { queue: m.queue.push((id, msg)), sent: m.sent.push((id, msg)), ..m })
    } else {
        (false, m)
    }
}

/// The consumer takes the oldest queued message; with none queued it learns
/// whether more may still come.
pub open spec fn try_recv_spec<T>(m: ChannelModel<T>) -> (Result<T, TryRecvError>, ChannelModel<T>) {
    if m.queue.len() > 0 {
        (
            Ok(m.queue[0].1),
            ChannelModel { queue: m.queue.drop_first(), received: m.received.push(m.queue[0]), ..m },
        )
    } else if m.live.len() == 0 {
        (Err(TryRecvError::Disconnected), m)
    } else {
        (Err(TryRecvError::Empty), m)
    }
}

/// A further producer end is made; it gets the next unused identifier.
pub open spec fn add_sender_spec<T>(m: ChannelModel<T>) -> (u64, ChannelModel<T>) {
    (
        m.next_sender as u64,
        ChannelModel { live: m.live.insert(m.next_sender as u64), next_sender: m.next_sender + 1, ..m },
    )
}

/// Producer end `id` is dropped.
pub open spec fn drop_sender_spec<T>(m: ChannelModel<T>, id: u64) -> ChannelModel<T> {
    ChannelModel { live: m.live.remove(id), ..m }
}

/// The consumer end is dropped.
pub open spec fn drop_receiver_spec<T>(m: ChannelModel<T>) -> ChannelModel<T> {
    ChannelModel { receiver_alive: false, ..m }
}

/// The state after `n` receive attempts in a row.
pub open spec fn recv_n<T>(m: ChannelModel<T>, n: nat) -> ChannelModel<T>
    decreases n,
{
    if n == 0 {
        m
    } else {
        try_recv_spec(recv_n(m, (n - 1) as nat)).1
    }
}

/// The messages of `s` that producer `id` sent, in their order in `s`.
pub open spec fn from_producer<T>(s: Seq<(u64, T)>, id: u64) -> Seq<T>
    decreases s.len(),
{
    if s.len() == 0 {
        Seq::empty()
    } else {
        let rest = from_producer(s.drop_last(), id);
        if s.last().0 == id {
            rest.push(s.last().1)
        } else {
            rest
        }
    }
}

/// Every channel operation keeps the model reachable: a state that satisfies
/// `inv` is taken by any allowed operation to one that does too.
pub proof fn operations_keep_inv<T>(m: ChannelModel<T>, id: u64, msg: T)
    requires
        m.inv(),
    ensures
        new_spec::<T>().inv(),
        send_spec(m, id, msg).1.inv(),
        try_recv_spec(m).1.inv(),
        m.next_sender < u64::MAX ==> add_sender_spec(m).1.inv(),
        drop_sender_spec(m, id).inv(),
        drop_receiver_spec(m).inv(),
{
    let n = new_spec::<T>();
    assert(n.received + n.queue =~= n.sent);
    let s = send_spec(m, id, msg).1;
    if m.receiver_alive {
        assert(s.received + s.queue =~= s.sent);
    }
    let t = try_recv_spec(m).1;
    if m.queue.len() > 0 {
        assert(t.received + t.queue =~= t.sent);
    }
}

proof fn from_producer_concat<T>(a: Seq<(u64, T)>, b: Seq<(u64, T)>, id: u64)
    ensures
        from_producer(a + b, id) == from_producer(a, id) + from_producer(b, id),
    decreases b.len(),
{
    if b.len() == 0 {
        assert(a + b =~= a);
        assert(from_producer(b, id) =~= Seq::<T>::empty());
        assert(from_producer(a, id) + Seq::<T>::empty() =~= from_producer(a, id));
    } else {
        from_producer_concat(a, b.drop_last(), id);
        assert((a + b).drop_last() =~= a + b.drop_last());
        assert((a + b).last() == b.last());
        if b.last().0 == id {
            assert(from_producer(a, id) + from_producer(b.drop_last(), id).push(b.last().1)
                =~= (from_producer(a, id) + from_producer(b.drop_last(), id)).push(b.last().1));
        }
    }
}

/// Order per producer: the messages one producer end sent, in the order it
/// sent them, are exactly those the consumer has received from it, in the
/// order received, followed by those of it still queued, in queue order.
/// So the consumer sees each producer's messages in sending order.
pub proof fn per_producer_fifo<T>(m: ChannelModel<T>, id: u64)
    requires
        m.inv(),
    ensures
        from_producer(m.sent, id) == from_producer(m.received, id) + from_producer(m.queue, id),
        from_producer(m.sent, id).take(from_producer(m.received, id).len() as int)
            == from_producer(m.received, id),
{
    from_producer_concat(m.received, m.queue, id);
    assert(from_producer(m.sent, id).take(from_producer(m.received, id).len() as int)
        =~= from_producer(m.received, id));
}

/// No loss and no duplication, whatever the number of producers: what was
/// received and what is still queued together make up, as a multiset, what
/// was sent; once the queue is empty, what was received is exactly what was
/// sent.
pub proof fn no_loss_no_duplication<T>(m: ChannelModel<T>)
    requires
        m.inv(),
    ensures
        m.received.to_multiset().add(m.queue.to_multiset()) == m.sent.to_multiset(),
        m.queue.len() == 0 ==> m.received.to_multiset() == m.sent.to_multiset(),
{
    vstd::seq_lib::lemma_multiset_commutative(m.received, m.queue);
    if m.queue.len() == 0 {
        assert(m.received + m.queue =~= m.received);
    }
}

proof fn recv_n_drains<T>(m: ChannelModel<T>, k: nat)
    requires
        m.inv(),
        k <= m.queue.len(),
    ensures
        recv_n(m, k).queue == m.queue.skip(k as int),
        recv_n(m, k).received == m.received + m.queue.take(k as int),
        recv_n(m, k).live == m.live,
        recv_n(m, k).sent == m.sent,
    decreases k,
{
    if k == 0 {
        assert(m.queue.skip(0) =~= m.queue);
        assert(m.received + m.queue.take(0) =~= m.received);
    } else {
        recv_n_drains(m, (k - 1) as nat);
        let p = recv_n(m, (k - 1) as nat);
        assert(p.queue.len() > 0);
        assert(p.queue[0] == m.queue[k - 1]);
        assert(p.queue.drop_first() =~= m.queue.skip(k as int));
        assert(p.received.push(p.queue[0]) =~= m.received + m.queue.take(k as int));
    }
}

/// Once every producer end is gone, receiving never waits: each attempt
/// returns the next queued message until the queue is empty, all of them
/// in queue order, and every attempt after that returns `Disconnected`.
pub proof fn disconnected_after_drain<T>(m: ChannelModel<T>, k: nat)
    requires
        m.inv(),
        m.senders() == 0,
    ensures
        k < m.queue.len() ==> try_recv_spec(recv_n(m, k)).0 == Ok::<T, TryRecvError>(m.queue[k as int].1),
        recv_n(m, m.queue.len()).received == m.received + m.queue,
        k >= m.queue.len() ==> try_recv_spec(recv_n(m, k)).0 == Err::<T, TryRecvError>(
            TryRecvError::Disconnected,
        ),
        k >= m.queue.len() ==> recv_n(m, k) == recv_n(m, m.queue.len()),
    decreases k,
{
    let len = m.queue.len();
    recv_n_drains(m, len);
    assert(m.queue.take(len as int) =~= m.queue);
    if k < len {
        recv_n_drains(m, k);
    } else if k > len {
        disconnected_after_drain(m, (k - 1) as nat);
    }
    if k >= len {
        assert(recv_n(m, len).queue.len() == 0);
    }
}

/// The shared state of a multi-producer, single-consumer FIFO channel.
pub struct Channel<T> {
    queue: VecDeque<(u64, T)>,
    senders: u64,
    next_sender: u64,
    receiver_alive: bool,
    live: Ghost<Set<u64>>,
    sent: Ghost<Seq<(u64, T)>>,
    received: Ghost<Seq<(u64, T)>>,
}

impl<T> View for Channel<T> {
    type V = ChannelModel<T>;

    closed spec fn view(&self) -> ChannelModel<T> {
        ChannelModel {
            queue: self.queue@,
            live: self.live@,
            next_sender: self.next_sender as nat,
            receiver_alive: self.receiver_alive,
            sent: self.sent@,
            received: self.received@,
        }
    }
}

impl<T> Channel<T> {
    /// The channel's fields agree with its model, and the model is reachable.
    pub closed spec fn wf(&self) -> bool {
        &&& self@.inv()
        &&& self.senders as nat == self.live@.len()
        &&& self.senders <= self.next_sender
    }

    /// A channel with one producer end, identifier 0, and its consumer end.
    pub fn new() -> (r: Self)
        ensures
            r.wf(),
            r@ == new_spec::<T>(),
    {
        let r = Channel {
            queue: VecDeque::new(),
            senders: 1,
            next_sender: 1,
            receiver_alive: true,
            live: Ghost(Set::empty().insert(0u64)),
            sent: Ghost(Seq::empty()),
            received: Ghost(Seq::empty()),
        };
        proof {
            assert(r.live@.len() == 1) by {
                assert(r.live@ == Set::<u64>::empty().insert(0u64));
            }
            assert(r.received@ + r.queue@ =~= r.sent@);
        }
        r
    }

    /// The number of live producer ends.
    pub fn sender_count(&self) -> (r: u64)
        requires
            self.wf(),
        ensures
            r as nat == self@.senders(),
    {
        self.senders
    }

    /// The number of queued messages.
    pub fn pending(&self) -> (r: usize)
        ensures
            r as nat == self@.queue.len(),
    {
        self.queue.len()
    }

    /// Whether a further producer end can still get an identifier of its own.
    pub fn can_add_sender(&self) -> (r: bool)
        ensures
            r == (self@.next_sender < u64::MAX),
    {
        self.next_sender < u64::MAX
    }

    /// Whether the consumer end still exists.
    pub fn has_receiver(&self) -> (r: bool)
        ensures
            r == self@.receiver_alive,
    {
        self.receiver_alive
    }

    /// Producer end `id` sends `msg`. It is queued behind every earlier
    /// message unless the consumer end is gone, in which case it comes back
    /// inside the error and nothing changes.
    pub fn send(&mut self, id: u64, msg: T) -> (r: Result<(), SendError<T>>)
        requires
            old(self).wf(),
            old(self)@.live.contains(id),
        ensures
            final(self).wf(),
            r is Ok == send_spec(old(self)@, id, msg).0,
            final(self)@ == send_spec(old(self)@, id, msg).1,
            r matches Err(e) ==> e.0 == msg,
    {
        if self.receiver_alive {
            proof {
                self.sent@ = self.sent@.push((id, msg));
            }
            self.queue.push_back((id, msg));
            proof {
                assert(self.received@ + self.queue@ =~= self.sent@);
            }
            Ok(())
        } else {
            Err(SendError(msg))
        }
    }

    /// One receive attempt that never waits: the oldest queued message, or
    /// `Empty` while producers remain, or `Disconnected` once none does.
    pub fn try_recv(&mut self) -> (r: Result<T, TryRecvError>)
        requires
            old(self).wf(),
        ensures
            final(self).wf(),
            (r, final(self)@) == try_recv_spec(old(self)@),
    {
        match self.queue.pop_front() {
            Some(item) => {
                proof {
                    self.received@ = self.received@.push(item);
                    assert(self.received@ + self.queue@ =~= self.sent@);
                }
                Ok(item.1)
            },
            None => {
                if self.senders == 0 {
                    Err(TryRecvError::Disconnected)
                } else {
                    Err(TryRecvError::Empty)
                }
            },
        }
    }

    /// Producer end `from` is cloned: the new end gets a fresh identifier,
    /// which is returned.
    pub fn add_sender(&mut self, from: u64) -> (r: u64)
        requires
            old(self).wf(),
            old(self)@.live.contains(from),
            old(self)@.next_sender < u64::MAX,
        ensures
            final(self).wf(),
            (r, final(self)@) == add_sender_spec(old(self)@),
    {
        let id = self.next_sender;
        proof {
            assert(!self.live@.contains(id));
            self.live@ = self.live@.insert(id);
        }
        self.next_sender = self.next_sender + 1;
        self.senders = self.senders + 1;
        id
    }

    /// Producer end `id` is dropped.
    pub fn drop_sender(&mut self, id: u64)
        requires
            old(self).wf(),
            old(self)@.live.contains(id),
        ensures
            final(self).wf(),
            final(self)@ == drop_sender_spec(old(self)@, id),
    {
        proof {
            vstd::set_lib::lemma_set_empty_equivalency_len(self.live@);
            self.live@ = self.live@.remove(id);
        }
        self.senders = self.senders - 1;
    }

    /// The consumer end is dropped: from now on every send is refused.
    pub fn drop_receiver(&mut self)
        requires
            old(self).wf(),
        ensures
            final(self).wf(),
            final(self)@ == drop_receiver_spec(old(self)@),
    {
        self.receiver_alive = false;
    }
}

} // verus!
