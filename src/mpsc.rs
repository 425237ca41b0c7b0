use crate::cell::InteriorMutability;
use crate::notify::{lemma_push_fresh, notified_step, notify_waiters_step, Notify, NotifyView};
use std::collections::VecDeque;
use vstd::prelude::*;

verus! {

/// A send refused because the queue is closed; the value comes back.
#[derive(Debug, Clone, Copy, PartialEq, Eq)]
pub struct SendError<T>(pub T);

/// Why `try_recv` found nothing.
#[derive(Debug, Clone, Copy, PartialEq, Eq, Structural)]
pub enum TryRecvError {
    /// Nothing is buffered and senders remain.
    Empty,
    /// Nothing is buffered and the queue is closed.
    Disconnected,
}

impl TryRecvError {
    /// A line of text that describes the error.
    pub fn message(&self) -> (r: &'static str)
        ensures
            *self == TryRecvError::Empty ==> r@ == "receiving on an empty channel"@,
            *self == TryRecvError::Disconnected ==> r@ == "receiving on a closed channel"@,
    {
        proof {
            reveal_strlit("receiving on an empty channel");
            reveal_strlit("receiving on a closed channel");
        }
        match self {
            TryRecvError::Empty => "receiving on an empty channel",
            TryRecvError::Disconnected => "receiving on a closed channel",
        }
    }
}

impl<T> SendError<T> {
    /// A line of text that describes the error.
    pub fn message(&self) -> (r: &'static str)
        ensures
            r@ == "channel closed"@,
    {
        proof {
            reveal_strlit("channel closed");
        }
        "channel closed"
    }
}

/// The outcome of polling the receiver.
#[derive(Debug, Clone, Copy, PartialEq, Eq)]
pub enum RecvPoll<T> {
    /// The oldest buffered item, or `None` at end of stream.
    Ready(Option<T>),
    /// Nothing yet; the polling task waits to be woken.
    Pending,
}

/// What a queue holds: the buffered items (oldest first), the number of
/// live senders, whether it is closed, and the notify the receiver waits on.
pub ghost struct MpscView<T> {
    pub data: Seq<T>,
    pub senders: nat,
    pub hungup: bool,
    pub notify: NotifyView,
    pub capacity: nat,
}

impl<T> MpscView<T> {
    /// With no sender left the queue is closed; the notify never stores a
    /// permit, since the queue only ever wakes all waiters.
    pub open spec fn wf(self) -> bool {
        &&& self.notify.wf()
        &&& !self.notify.permit
        &&& self.senders == 0 ==> self.hungup
    }
}

/// A send: refused when closed, else the item joins the back of the buffer
/// and the waiting receiver is woken.
pub open spec fn send_step<T>(q: MpscView<T>, value: T) -> (MpscView<T>, bool) {
    if q.hungup {
        (q, false)
    } else {
        (MpscView { data: q.data.push(value), notify: notify_waiters_step(q.notify), ..q }, true)
    }
}

/// A receive polled by task `t`: the oldest item, else end of stream when
/// closed, else `t` waits.
pub open spec fn recv_step<T>(q: MpscView<T>, t: u64) -> (MpscView<T>, RecvPoll<T>) {
    if q.data.len() > 0 {
        (MpscView { data: q.data.drop_first(), ..q }, RecvPoll::Ready(Some(q.data[0])))
    } else if q.hungup {
        (q, RecvPoll::Ready(None))
    } else {
        (MpscView { notify: notified_step(q.notify, t), ..q }, RecvPoll::Pending)
    }
}

/// A sender goes away; the last one closes the queue and wakes the receiver.
pub open spec fn drop_sender_step<T>(q: MpscView<T>) -> MpscView<T> {
    let n = (q.senders - 1) as nat;
    if n == 0 {
        MpscView { senders: n, hungup: true, notify: notify_waiters_step(q.notify), ..q }
    } else {
        MpscView { senders: n, ..q }
    }
}

/// The queue after `items` arrive in order, from whichever senders.
pub open spec fn send_all<T>(q: MpscView<T>, items: Seq<T>) -> MpscView<T>
    decreases items.len(),
{
    if items.len() == 0 {
        q
    } else {
        send_step(send_all(q, items.drop_last()), items.last()).0
    }
}

/// `n` receives polled by task `t`, and what each returned.
pub open spec fn recv_n<T>(q: MpscView<T>, t: u64, n: nat) -> (MpscView<T>, Seq<RecvPoll<T>>)
    decreases n,
{
    if n == 0 {
        (q, Seq::empty())
    } else {
        let (q1, r) = recv_step(q, t);
        let (q2, rs) = recv_n(q1, t, (n - 1) as nat);
        (q2, seq![r] + rs)
    }
}

/// Each item as a receive yields it.
pub open spec fn delivered<T>(items: Seq<T>) -> Seq<RecvPoll<T>> {
    items.map_values(|x: T| RecvPoll::Ready(Some(x)))
}

proof fn lemma_send_all_open<T>(q: MpscView<T>, items: Seq<T>)
    requires
        !q.hungup,
    ensures
        send_all(q, items).data == q.data + items,
        !send_all(q, items).hungup,
    decreases items.len(),
{
    if items.len() > 0 {
        lemma_send_all_open(q, items.drop_last());
        assert(q.data + items =~= (q.data + items.drop_last()).push(items.last()));
    }
}

proof fn lemma_recv_n_buffered<T>(q: MpscView<T>, t: u64, n: nat)
    requires
        n <= q.data.len(),
    ensures
        recv_n(q, t, n).1 == delivered(q.data.take(n as int)),
        recv_n(q, t, n).0 == (MpscView { data: q.data.skip(n as int), ..q }),
    decreases n,
{
    if n == 0 {
        assert(q.data.skip(0) =~= q.data);
        assert(delivered(q.data.take(0)) =~= Seq::<RecvPoll<T>>::empty());
    } else {
        let q1 = recv_step(q, t).0;
        lemma_recv_n_buffered(q1, t, (n - 1) as nat);
        assert(q1.data.skip(n - 1) =~= q.data.skip(n as int));
        assert(delivered(q.data.take(n as int)) =~= seq![RecvPoll::Ready(Some(q.data[0]))]
            + delivered(q1.data.take(n - 1)));
        assert((MpscView { data: q.data.skip(n as int), ..q1 }) == (MpscView {
            data: q.data.skip(n as int),
            ..q
        }));
    }
}

/// Items are received in the order in which they arrived: after `items`
/// are sent to an open queue, receiving drains what was buffered before and
/// then `items`, in order.
pub proof fn lemma_fifo<T>(q: MpscView<T>, items: Seq<T>, t: u64)
    requires
        !q.hungup,
    ensures
        send_all(q, items).data == q.data + items,
        recv_n(send_all(q, items), t, q.data.len() + items.len()).1 == delivered(q.data + items),
{
    lemma_send_all_open(q, items);
    let s = send_all(q, items);
    lemma_recv_n_buffered(s, t, s.data.len());
    assert(s.data.take(s.data.len() as int) =~= s.data);
}

/// Once the last sender goes away, the receiver still gets every buffered
/// item, in order, and then end of stream.
pub proof fn lemma_drain_after_close<T>(q: MpscView<T>, t: u64)
    requires
        q.wf(),
        q.senders == 1,
    ensures
        drop_sender_step(q).hungup,
        recv_n(drop_sender_step(q), t, q.data.len() + 1).1 == delivered(q.data).push(
            RecvPoll::<T>::Ready(None),
        ),
{
    let c = drop_sender_step(q);
    let n = q.data.len();
    lemma_recv_n_buffered(c, t, n);
    lemma_recv_n_split(c, t, n);
    let rest = recv_n(c, t, n).0;
    assert(rest.data =~= Seq::<T>::empty());
    assert(rest.hungup);
    assert(recv_step(rest, t).1 == RecvPoll::<T>::Ready(None));
    assert(recv_n(recv_step(rest, t).0, t, 0).1 =~= Seq::<RecvPoll<T>>::empty());
    assert(recv_n(rest, t, 1).1 =~= seq![RecvPoll::<T>::Ready(None)]);
    assert(c.data.take(n as int) =~= q.data);
}

proof fn lemma_recv_n_split<T>(q: MpscView<T>, t: u64, n: nat)
    ensures
        recv_n(q, t, n + 1).1 == recv_n(q, t, n).1 + recv_n(recv_n(q, t, n).0, t, 1).1,
    decreases n,
{
    if n == 0 {
        let (q1, r) = recv_step(q, t);
        assert(recv_n(q1, t, 0).1 =~= Seq::<RecvPoll<T>>::empty());
        assert(recv_n(q, t, 1).1 =~= seq![r]);
        assert(recv_n(q, t, 0).1 + recv_n(q, t, 1).1 =~= seq![r]);
    } else {
        let (q1, r) = recv_step(q, t);
        lemma_recv_n_split(q1, t, (n - 1) as nat);
        assert(recv_n(q, t, n + 1).1 =~= seq![r] + recv_n(q1, t, n).1);
        assert(recv_n(q, t, n + 1).1 =~= recv_n(q, t, n).1 + recv_n(recv_n(q, t, n).0, t, 1).1);
    }
}

/// The shared state of a multi-producer, single-consumer queue.
pub struct Channel<T> {
    reference_count: usize,
    data: InteriorMutability<VecDeque<T>>,
    hungup: bool,
    notify: Notify,
    capacity: usize,
}

impl<T> View for Channel<T> {
    type V = MpscView<T>;

    closed spec fn view(&self) -> MpscView<T> {
        MpscView {
            data: self.data@@,
            senders: self.reference_count as nat,
            hungup: self.hungup,
            notify: self.notify@,
            capacity: self.capacity as nat,
        }
    }
}

/// A fresh queue with one sender. `buffer` is a capacity hint: room for
/// that many items is set aside, and no send ever waits for room.
pub fn channel<T>(buffer: usize) -> (r: Channel<T>)
    ensures
        r@.wf(),
        r@.data.len() == 0,
        r@.senders == 1,
        !r@.hungup,
        r@.notify.waiters.len() == 0,
        r@.notify.woken.len() == 0,
        r@.capacity == buffer,
{
    Channel {
        reference_count: 1,
        data: InteriorMutability::new(VecDeque::with_capacity(buffer)),
        hungup: false,
        notify: Notify::new(),
        capacity: buffer,
    }
}

impl<T> Channel<T> {
    /// A sender is cloned: one more live sender.
    pub fn clone_sender(&mut self)
        requires
            old(self)@.wf(),
            old(self)@.senders > 0,
            old(self)@.senders < usize::MAX,
        ensures
            final(self)@ == (MpscView { senders: old(self)@.senders + 1, ..old(self)@ }),
            final(self)@.wf(),
    {
        self.reference_count = self.reference_count + 1;
    }

    /// A sender goes away; the last one closes the queue and wakes the
    /// receiver so that it observes end of stream.
    pub fn drop_sender(&mut self)
        requires
            old(self)@.wf(),
            old(self)@.senders > 0,
        ensures
            final(self)@ == drop_sender_step(old(self)@),
            final(self)@.wf(),
    {
        self.reference_count = self.reference_count - 1;
        if self.reference_count == 0 {
            self.hungup = true;
            self.notify.notify_waiters();
        }
    }

    /// Appends `value` at once, with no wait for room; refused when the
    /// queue is closed.
    pub fn blocking_send(&mut self, value: T) -> (r: Result<(), SendError<T>>)
        requires
            old(self)@.wf(),
        ensures
            final(self)@ == send_step(old(self)@, value).0,
            r is Ok <==> send_step(old(self)@, value).1,
            r is Err ==> r == Err::<(), SendError<T>>(SendError(value)),
            final(self)@.wf(),
    {
        if self.hungup {
            Err(SendError(value))
        } else {
            self.data.as_mut().push_back(value);
            self.notify.notify_waiters();
            Ok(())
        }
    }

    /// The same as `blocking_send`: a cooperative queue never makes a
    /// sender wait.
    pub fn send(&mut self, value: T) -> (r: Result<(), SendError<T>>)
        requires
            old(self)@.wf(),
        ensures
            final(self)@ == send_step(old(self)@, value).0,
            r is Ok <==> send_step(old(self)@, value).1,
            r is Err ==> r == Err::<(), SendError<T>>(SendError(value)),
            final(self)@.wf(),
    {
        self.blocking_send(value)
    }

    /// The receiver, polled by task `task`: the oldest item, or end of
    /// stream once the queue is closed and drained, or `Pending` with
    /// `task` queued to be woken.
    pub fn recv(&mut self, task: u64) -> (r: RecvPoll<T>)
        requires
            old(self)@.wf(),
            !old(self)@.notify.waiters.contains(task),
        ensures
            (final(self)@, r) == recv_step(old(self)@, task),
            final(self)@.wf(),
    {
        match self.data.as_mut().pop_front() {
            Some(value) => RecvPoll::Ready(Some(value)),
            None => {
                if self.hungup {
                    RecvPoll::Ready(None)
                } else {
                    proof {
                        lemma_push_fresh(self@.notify.waiters, task);
                    }
                    self.notify.notified(task);
                    RecvPoll::Pending
                }
            },
        }
    }

    /// Takes the oldest item without waiting.
    pub fn try_recv(&mut self) -> (r: Result<T, TryRecvError>)
        requires
            old(self)@.wf(),
        ensures
            old(self)@.data.len() > 0 ==> r == Ok::<T, TryRecvError>(old(self)@.data[0])
                && final(self)@ == (MpscView { data: old(self)@.data.drop_first(), ..old(self)@ }),
            old(self)@.data.len() == 0 ==> final(self)@ == old(self)@,
            old(self)@.data.len() == 0 && old(self)@.hungup ==> r == Err::<T, TryRecvError>(
                TryRecvError::Disconnected,
            ),
            old(self)@.data.len() == 0 && !old(self)@.hungup ==> r == Err::<T, TryRecvError>(
                TryRecvError::Empty,
            ),
            final(self)@.wf(),
    {
        match self.data.as_mut().pop_front() {
            Some(value) => Ok(value),
            None => {
                if self.hungup {
                    Err(TryRecvError::Disconnected)
                } else {
                    Err(TryRecvError::Empty)
                }
            },
        }
    }

    /// The receiver goes away; later sends are refused.
    pub fn drop_receiver(&mut self)
        requires
            old(self)@.wf(),
        ensures
            final(self)@ == (MpscView { hungup: true, ..old(self)@ }),
            final(self)@.wf(),
    {
        self.hungup = true;
    }

    /// Hands the woken receiver task to the scheduler.
    pub fn take_woken(&mut self) -> (r: Vec<u64>)
        requires
            old(self)@.wf(),
        ensures
            r@ == old(self)@.notify.woken,
            final(self)@ == (MpscView {
                notify: NotifyView { woken: Seq::empty(), ..old(self)@.notify },
                ..old(self)@
            }),
            final(self)@.wf(),
    {
        self.notify.take_woken()
    }

    /// Number of buffered items.
    pub fn len(&self) -> (r: usize)
        ensures
            r == self@.data.len(),
    {
        self.data.as_ref().len()
    }

    /// Number of live senders.
    pub fn senders(&self) -> (r: usize)
        ensures
            r == self@.senders,
    {
        self.reference_count
    }

    pub fn is_closed(&self) -> (r: bool)
        ensures
            r == self@.hungup,
    {
        self.hungup
    }
}

} // verus!
