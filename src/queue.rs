use vstd::prelude::*;

use std::collections::VecDeque;

verus! {

/// The abstract state of a request queue.
pub ghost struct QueueModel<T> {
    /// Queued items, oldest first.
    pub items: Seq<T>,
    /// The most items the queue holds at once.
    pub capacity: nat,
    /// How many write endpoints are alive.
    pub senders: nat,
    /// Whether the read endpoint is alive.
    pub receiver_open: bool,
}

impl<T> QueueModel<T> {
    /// Holds no more than its capacity.
    pub open spec fn wf(self) -> bool {
        self.items.len() <= self.capacity
    }

    /// A send on this state is taken in.
    pub open spec fn accepts(self) -> bool {
        self.receiver_open && self.items.len() < self.capacity
    }

    /// The state after one attempt to send `x`.
    pub open spec fn sent(self, x: T) -> QueueModel<T> {
        if self.accepts() {
            QueueModel { items: self.items.push(x), ..self }
        } else {
            self
        }
    }

    /// The state after attempts to send each of `xs`, in order.
    pub open spec fn sent_all(self, xs: Seq<T>) -> QueueModel<T>
        decreases xs.len(),
    {
        if xs.len() == 0 {
            self
        } else {
            self.sent_all(xs.drop_last()).sent(xs.last())
        }
    }

    /// The state after one attempt to receive.
    pub open spec fn received(self) -> QueueModel<T> {
        if self.items.len() > 0 {
            QueueModel { items: self.items.drop_first(), ..self }
        } else {
            self
        }
    }

    /// What `n` successive attempts to receive yield, in order.
    pub open spec fn drained(self, n: nat) -> Seq<T>
        decreases n,
    {
        if n == 0 || self.items.len() == 0 {
            Seq::empty()
        } else {
            seq![self.items[0]].add(self.received().drained((n - 1) as nat))
        }
    }
}

/// Sends that all fit are all taken in, in order, behind what was queued.
proof fn lemma_sent_all_fits<T>(m: QueueModel<T>, xs: Seq<T>)
    requires
        m.receiver_open,
        m.items.len() + xs.len() <= m.capacity,
    ensures
        m.sent_all(xs) == (QueueModel { items: m.items + xs, ..m }),
    decreases xs.len(),
{
    if xs.len() == 0 {
        assert(m.items + xs =~= m.items);
    } else {
        lemma_sent_all_fits(m, xs.drop_last());
        assert(m.items + xs.drop_last() + seq![xs.last()] =~= m.items + xs);
        assert((m.items + xs.drop_last()).push(xs.last()) =~= m.items + xs);
    }
}

/// Receiving as many times as items are queued yields exactly those items.
proof fn lemma_drained_all<T>(m: QueueModel<T>)
    ensures
        m.drained(m.items.len()) == m.items,
    decreases m.items.len(),
{
    if m.items.len() > 0 {
        lemma_drained_all(m.received());
        assert(seq![m.items[0]] + m.items.drop_first() =~= m.items);
    } else {
        assert(m.items =~= Seq::<T>::empty());
    }
}

/// First in, first out: requests sent one after another to a queue that
/// reads and has room for them all are each taken in, and receiving then
/// yields what was queued before them followed by those requests, in the
/// order they were sent; each item comes out as it went in.
pub proof fn fifo_law<T>(m: QueueModel<T>, xs: Seq<T>)
    requires
        m.wf(),
        m.receiver_open,
        m.items.len() + xs.len() <= m.capacity,
    ensures
        forall|i: int| 0 <= i < xs.len() ==> #[trigger] m.sent_all(xs.take(i)).accepts(),
        m.sent_all(xs).items == m.items + xs,
        m.sent_all(xs).drained(m.items.len() + xs.len()) == m.items + xs,
{
    assert forall|i: int| 0 <= i < xs.len() implies #[trigger] m.sent_all(
        xs.take(i),
    ).accepts() by {
        lemma_sent_all_fits(m, xs.take(i));
    }
    lemma_sent_all_fits(m, xs);
    lemma_drained_all(m.sent_all(xs));
}

/// Backpressure: once as many sends as the free room have been taken in, the
/// queue is full, and every further send is refused and leaves the queue as
/// it was; nothing taken in is lost or reordered.
pub proof fn backpressure_law<T>(m: QueueModel<T>, xs: Seq<T>)
    requires
        m.wf(),
        m.receiver_open,
        m.items.len() + xs.len() > m.capacity,
    ensures
        ({
            let room = m.capacity - m.items.len();
            let full = m.sent_all(xs.take(room));
            &&& full.items == m.items + xs.take(room)
            &&& !full.accepts()
            &&& full.items.len() == m.capacity
            &&& m.sent_all(xs) == full
        }),
{
    let room = m.capacity - m.items.len();
    lemma_sent_all_fits(m, xs.take(room));
    lemma_sent_all_concat(m, xs.take(room), xs.skip(room));
    assert(xs.take(room) + xs.skip(room) =~= xs);
    lemma_sent_all_stalled(m.sent_all(xs.take(room)), xs.skip(room));
}

/// Sending one sequence and then another is sending the two joined.
proof fn lemma_sent_all_concat<T>(m: QueueModel<T>, a: Seq<T>, b: Seq<T>)
    ensures
        m.sent_all(a + b) == m.sent_all(a).sent_all(b),
    decreases b.len(),
{
    if b.len() == 0 {
        assert(a + b =~= a);
    } else {
        lemma_sent_all_concat(m, a, b.drop_last());
        assert((a + b).drop_last() =~= a + b.drop_last());
        assert((a + b).last() == b.last());
    }
}

/// A queue that takes nothing in stays as it is under any sends.
proof fn lemma_sent_all_stalled<T>(full: QueueModel<T>, xs: Seq<T>)
    requires
        !full.accepts(),
    ensures
        full.sent_all(xs) == full,
    decreases xs.len(),
{
    if xs.len() > 0 {
        lemma_sent_all_stalled(full, xs.drop_last());
    }
}

/// Why a send was refused; the item comes back to the sender.
#[derive(Debug)]
pub enum Rejected<T> {
    /// The queue holds its capacity: the sender must wait or give up.
    Full(T),
    /// The read endpoint is gone: nothing will ever receive.
    Disconnected(T),
}

/// What an attempt to receive found.
#[derive(Debug)]
pub enum Received<T> {
    /// The oldest queued item.
    Message(T),
    /// Nothing queued, but a sender may still send.
    Empty,
    /// Nothing queued, and no sender is left.
    Disconnected,
}

/// A bounded first-in first-out queue with many write endpoints and one read
/// endpoint, counted so that each side sees when the other has gone.
pub struct RequestQueue<T> {
    items: VecDeque<T>,
    capacity: usize,
    senders: usize,
    receiver_open: bool,
}

impl<T> View for RequestQueue<T> {
    type V = QueueModel<T>;

    closed spec fn view(&self) -> QueueModel<T> {
        QueueModel {
            items: self.items@,
            capacity: self.capacity as nat,
            senders: self.senders as nat,
            receiver_open: self.receiver_open,
        }
    }
}

impl<T> RequestQueue<T> {
    /// An empty queue of the given capacity, with one write endpoint and the
    /// read endpoint alive.
    pub fn new(capacity: usize) -> (r: RequestQueue<T>)
        ensures
            r@ == (QueueModel::<T> {
                items: Seq::empty(),
                capacity: capacity as nat,
                senders: 1,
                receiver_open: true,
            }),
            r@.wf(),
    {
        RequestQueue { items: VecDeque::new(), capacity, senders: 1, receiver_open: true }
    }

    /// Number of queued items.
    pub fn len(&self) -> (r: usize)
        ensures
            r == self@.items.len(),
    {
        self.items.len()
    }

    /// The capacity fixed at construction.
    pub fn capacity(&self) -> (r: usize)
        ensures
            r == self@.capacity,
    {
        self.capacity
    }

    /// Number of live write endpoints.
    pub fn senders(&self) -> (r: usize)
        ensures
            r == self@.senders,
    {
        self.senders
    }

    /// Whether the read endpoint is alive.
    pub fn receiver_open(&self) -> (r: bool)
        ensures
            r == self@.receiver_open,
    {
        self.receiver_open
    }

    /// Appends `item` behind every queued item, unless the read endpoint is
    /// gone or the queue is full; a refused item is handed back.
    pub fn try_send(&mut self, item: T) -> (r: Result<(), Rejected<T>>)
        ensures
            final(self)@ == old(self)@.sent(item),
            old(self)@.wf() ==> final(self)@.wf(),
            r is Ok <==> old(self)@.accepts(),
            !old(self)@.receiver_open ==> r == Err::<(), Rejected<T>>(Rejected::Disconnected(item)),
            old(self)@.receiver_open && old(self)@.items.len() >= old(self)@.capacity ==> r
                == Err::<(), Rejected<T>>(Rejected::Full(item)),
    {
        if !self.receiver_open {
            Err(Rejected::Disconnected(item))
        } else if self.items.len() >= self.capacity {
            Err(Rejected::Full(item))
        } else {
            self.items.push_back(item);
            Ok(())
        }
    }

    /// Takes the oldest queued item; when none is queued, tells whether a
    /// sender is still alive.
    pub fn try_recv(&mut self) -> (r: Received<T>)
        ensures
            final(self)@ == old(self)@.received(),
            old(self)@.wf() ==> final(self)@.wf(),
            old(self)@.items.len() > 0 ==> r == Received::Message(old(self)@.items[0]),
            old(self)@.items.len() == 0 && old(self)@.senders == 0 ==> r
                == Received::<T>::Disconnected,
            old(self)@.items.len() == 0 && old(self)@.senders > 0 ==> r == Received::<T>::Empty,
    {
        match self.items.pop_front() {
            Some(item) => Received::Message(item),
            None => {
                if self.senders == 0 {
                    Received::Disconnected
                } else {
                    Received::Empty
                }
            },
        }
    }

    /// Records one more write endpoint.
    pub fn add_sender(&mut self)
        requires
            old(self)@.senders < usize::MAX,
        ensures
            final(self)@ == (QueueModel { senders: old(self)@.senders + 1, ..old(self)@ }),
    {
        self.senders = self.senders + 1;
    }

    /// Records that one write endpoint went away.
    pub fn drop_sender(&mut self)
        requires
            old(self)@.senders > 0,
        ensures
            final(self)@ == (QueueModel { senders: (old(self)@.senders - 1) as nat, ..old(self)@ }),
    {
        self.senders = self.senders - 1;
    }

    /// Records that the read endpoint went away; what was queued is dropped,
    /// since nothing can receive it any more.
    pub fn close_receiver(&mut self)
        ensures
            final(self)@ == (QueueModel {
                items: Seq::<T>::empty(),
                receiver_open: false,
                ..old(self)@
            }),
    {
        self.items = VecDeque::new();
        self.receiver_open = false;
    }
}

} // verus!
