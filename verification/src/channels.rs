use vstd::prelude::*;

verus! {

/// Capacity of the typing-notification queue. A push onto a queue already
/// holding this many unconsumed items drops the new item; it never blocks.
pub const TYPING_QUEUE_CAPACITY: usize = 10;

/// An event describing which users are currently typing in which room,
/// derived from a room's ephemeral events. Transient: produced by the sync
/// loop, consumed by whoever holds the typing receiver.
#[derive(Debug)]
pub struct TypingNotification {
    pub room_id: String,
    pub user_ids: Vec<String>,
}

/// What a push does to the queue contents: append while below capacity,
/// drop the newest item once the capacity is reached.
pub open spec fn enqueue(
    q: Seq<TypingNotification>,
    n: TypingNotification,
) -> Seq<TypingNotification> {
    if q.len() < TYPING_QUEUE_CAPACITY {
        q.push(n)
    } else {
        q
    }
}

/// The queue contents after pushing each item of `ns` in order.
pub open spec fn enqueue_all(
    q: Seq<TypingNotification>,
    ns: Seq<TypingNotification>,
) -> Seq<TypingNotification>
    decreases ns.len(),
{
    if ns.len() == 0 {
        q
    } else {
        enqueue_all(enqueue(q, ns[0]), ns.skip(1))
    }
}

/// The typing-notification queue never holds more than
/// [`TYPING_QUEUE_CAPACITY`] unconsumed items, however many pushes reach it:
/// a push onto a full queue leaves it unchanged.
pub proof fn lemma_typing_queue_bounded(
    q: Seq<TypingNotification>,
    ns: Seq<TypingNotification>,
)
    requires
        q.len() <= TYPING_QUEUE_CAPACITY,
    ensures
        enqueue_all(q, ns).len() <= TYPING_QUEUE_CAPACITY,
        forall|n: TypingNotification|
            q.len() == TYPING_QUEUE_CAPACITY ==> #[trigger] enqueue(q, n) == q,
    decreases ns.len(),
{
    if ns.len() > 0 {
        lemma_typing_queue_bounded(enqueue(q, ns[0]), ns.skip(1));
    }
}

/// The consumer end of the bounded typing-notification queue. The sync loop
/// pushes into it, the single consumer pops from it in FIFO order; the
/// buffer travels with the receiver.
#[derive(Debug)]
pub struct TypingReceiver {
    pub items: Vec<TypingNotification>,
}

impl View for TypingReceiver {
    type V = Seq<TypingNotification>;

    open spec fn view(&self) -> Seq<TypingNotification> {
        self.items@
    }
}

impl TypingReceiver {
    /// The queue never exceeds its capacity.
    pub open spec fn wf(&self) -> bool {
        self@.len() <= TYPING_QUEUE_CAPACITY
    }

    pub fn new() -> (r: Self)
        ensures
            r@ == Seq::<TypingNotification>::empty(),
            r.wf(),
    {
        TypingReceiver { items: Vec::new() }
    }

    pub fn len(&self) -> (n: usize)
        ensures
            n == self@.len(),
    {
        self.items.len()
    }

    /// Push a notification, dropping it if the queue is full; the push never
    /// blocks. Returns whether the notification was accepted.
    pub fn push(&mut self, n: TypingNotification) -> (delivered: bool)
        requires
            old(self).wf(),
        ensures
            final(self)@ == enqueue(old(self)@, n),
            delivered == (old(self)@.len() < TYPING_QUEUE_CAPACITY),
            final(self).wf(),
    {
        if self.items.len() < TYPING_QUEUE_CAPACITY {
            self.items.push(n);
            true
        } else {
            false
        }
    }

    /// Pop the oldest unconsumed notification, if any.
    pub fn recv(&mut self) -> (r: Option<TypingNotification>)
        ensures
            old(self)@.len() == 0 ==> r is None && final(self)@ == old(self)@,
            old(self)@.len() > 0 ==> r == Some(old(self)@[0]) && final(self)@ == old(self)@.skip(1),
    {
        if self.items.len() == 0 {
            None
        } else {
            let n = self.items.remove(0);
            proof {
                assert(old(self)@.remove(0) =~= old(self)@.skip(1));
            }
            Some(n)
        }
    }
}

/// The consumer end of the "first sync completed" signal: a single-slot,
/// latest-value-wins broadcast with initial value `false`. Publishing
/// overwrites the slot; intermediate values may be coalesced.
#[derive(Clone, Copy, Debug)]
pub struct FirstSyncedReceiver {
    pub current: bool,
}

impl View for FirstSyncedReceiver {
    type V = bool;

    open spec fn view(&self) -> bool {
        self.current
    }
}

impl FirstSyncedReceiver {
    pub fn new() -> (r: Self)
        ensures
            r@ == false,
    {
        FirstSyncedReceiver { current: false }
    }

    /// Publish a value, overwriting whatever was there.
    pub fn publish(&mut self, v: bool)
        ensures
            final(self)@ == v,
    {
        self.current = v;
    }

    /// The latest published value.
    pub fn current(&self) -> (b: bool)
        ensures
            b == self@,
    {
        self.current
    }
}

} // verus!
