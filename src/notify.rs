use std::collections::VecDeque;
use vstd::prelude::*;

verus! {

/// What a `Notify` holds: the stored permit, the queue of suspended
/// waiters (front first) and the waiters woken but not yet handed to the
/// scheduler (oldest first).
pub ghost struct NotifyView {
    pub permit: bool,
    pub waiters: Seq<u64>,
    pub woken: Seq<u64>,
}

impl NotifyView {
    /// A stored permit means nobody waits; a waiter is queued at most once.
    pub open spec fn wf(self) -> bool {
        &&& self.permit ==> self.waiters.len() == 0
        &&& self.waiters.no_duplicates()
    }
}

/// `notified` by waiter `w`: a stored permit is consumed, else `w` joins
/// the back of the queue.
pub open spec fn notified_step(v: NotifyView, w: u64) -> NotifyView {
    if v.permit {
        NotifyView { permit: false, ..v }
    } else {
        NotifyView { waiters: v.waiters.push(w), ..v }
    }
}

/// `notify_one`: the front waiter is woken, or a permit is stored when
/// nobody waits.
pub open spec fn notify_one_step(v: NotifyView) -> NotifyView {
    if v.waiters.len() > 0 {
        NotifyView { waiters: v.waiters.drop_first(), woken: v.woken.push(v.waiters[0]), ..v }
    } else {
        NotifyView { permit: true, ..v }
    }
}

/// `notify_waiters`: every queued waiter is woken in queue order; the
/// permit is left as it was.
pub open spec fn notify_waiters_step(v: NotifyView) -> NotifyView {
    NotifyView { waiters: Seq::empty(), woken: v.woken + v.waiters, ..v }
}

/// One call on a `Notify`.
pub ghost enum NotifyEvent {
    Notified(u64),
    NotifyOne,
}

pub open spec fn notify_event_step(v: NotifyView, e: NotifyEvent) -> NotifyView {
    match e {
        NotifyEvent::Notified(w) => notified_step(v, w),
        NotifyEvent::NotifyOne => notify_one_step(v),
    }
}

/// The notify after the calls, first to last.
pub open spec fn run_notify(v: NotifyView, evs: Seq<NotifyEvent>) -> NotifyView
    decreases evs.len(),
{
    if evs.len() == 0 {
        v
    } else {
        notify_event_step(run_notify(v, evs.drop_last()), evs.last())
    }
}

/// No waiter is queued while it already waits.
pub open spec fn notify_events_enabled(v: NotifyView, evs: Seq<NotifyEvent>) -> bool
    decreases evs.len(),
{
    evs.len() == 0 || (notify_events_enabled(v, evs.drop_last()) && match evs.last() {
        NotifyEvent::Notified(w) => !run_notify(v, evs.drop_last()).waiters.contains(w),
        NotifyEvent::NotifyOne => true,
    })
}

/// How many of the calls are `notify_one`.
pub open spec fn count_notify_one(evs: Seq<NotifyEvent>) -> nat
    decreases evs.len(),
{
    if evs.len() == 0 {
        0
    } else {
        count_notify_one(evs.drop_last()) + if evs.last() is NotifyOne {
            1nat
        } else {
            0nat
        }
    }
}

/// Queuing a waiter that is not queued keeps the queue free of repeats.
pub proof fn lemma_push_fresh(q: Seq<u64>, w: u64)
    requires
        q.no_duplicates(),
        !q.contains(w),
    ensures
        q.push(w).no_duplicates(),
{
    assert forall|i: int, j: int| 0 <= i < j < q.len() + 1 implies q.push(w)[i] != q.push(w)[j] by {
        if j == q.len() {
            assert(q.contains(q[i]));
        }
    }
}

/// Taking the front off a queue without repeats leaves one without
/// repeats that no longer holds the front.
pub proof fn lemma_drop_first_distinct(q: Seq<u64>)
    requires
        q.no_duplicates(),
        q.len() > 0,
    ensures
        q.drop_first().no_duplicates(),
        !q.drop_first().contains(q[0]),
{
    assert forall|i: int, j: int| 0 <= i < j < q.len() - 1 implies q.drop_first()[i]
        != q.drop_first()[j] by {
        assert(q.drop_first()[i] == q[i + 1]);
        assert(q.drop_first()[j] == q[j + 1]);
    }
    if q.drop_first().contains(q[0]) {
        let k = choose|k: int| 0 <= k < q.len() - 1 && q.drop_first()[k] == q[0];
        assert(q[k + 1] == q[0]);
    }
}

/// One `notify_one` wakes exactly the front waiter, which then no longer
/// waits, or, with nobody waiting, stores a permit and wakes nobody.
pub proof fn lemma_notify_one_wakes_one(v: NotifyView)
    requires
        v.wf(),
    ensures
        notify_one_step(v).wf(),
        v.waiters.len() > 0 ==> {
            &&& notify_one_step(v).woken == v.woken.push(v.waiters[0])
            &&& !notify_one_step(v).waiters.contains(v.waiters[0])
            &&& notify_one_step(v).permit == v.permit
        },
        v.waiters.len() == 0 ==> {
            &&& notify_one_step(v).woken == v.woken
            &&& notify_one_step(v).permit
        },
{
    if v.waiters.len() > 0 {
        lemma_drop_first_distinct(v.waiters);
    }
}

/// Over any run of `notified` and `notify_one` calls, woken waiters are
/// only ever added after the ones woken before, and no more of them are
/// added than there were `notify_one` calls.
pub proof fn lemma_notify_run(v: NotifyView, evs: Seq<NotifyEvent>)
    requires
        v.wf(),
        notify_events_enabled(v, evs),
    ensures
        run_notify(v, evs).wf(),
        v.woken.len() <= run_notify(v, evs).woken.len() <= v.woken.len() + count_notify_one(evs),
        run_notify(v, evs).woken.take(v.woken.len() as int) == v.woken,
    decreases evs.len(),
{
    if evs.len() == 0 {
        assert(v.woken.take(v.woken.len() as int) =~= v.woken);
    } else {
        lemma_notify_run(v, evs.drop_last());
        let u = run_notify(v, evs.drop_last());
        let n = v.woken.len() as int;
        match evs.last() {
            NotifyEvent::Notified(w) => {
                if !u.permit {
                    lemma_push_fresh(u.waiters, w);
                }
            },
            NotifyEvent::NotifyOne => {
                lemma_notify_one_wakes_one(u);
                if u.waiters.len() > 0 {
                    assert(u.woken.push(u.waiters[0]).take(n) =~= u.woken.take(n));
                }
            },
        }
    }
}

/// A condition signal with a single buffered permit and a FIFO wait queue.
pub struct Notify {
    permit: bool,
    wait_list: VecDeque<u64>,
    woken: Vec<u64>,
}

impl View for Notify {
    type V = NotifyView;

    closed spec fn view(&self) -> NotifyView {
        NotifyView { permit: self.permit, waiters: self.wait_list@, woken: self.woken@ }
    }
}

impl Default for Notify {
    fn default() -> (r: Notify)
        ensures
            r@ == (NotifyView { permit: false, waiters: Seq::empty(), woken: Seq::empty() }),
    {
        Notify::new()
    }
}

impl Notify {
    pub fn new() -> (r: Notify)
        ensures
            r@ == (NotifyView { permit: false, waiters: Seq::empty(), woken: Seq::empty() }),
            r@.wf(),
    {
        Notify { permit: false, wait_list: VecDeque::new(), woken: Vec::new() }
    }

    /// Waiter `waiter` asks to be notified. Returns `true` when a stored
    /// permit let it through at once; `false` when it is now suspended at
    /// the back of the queue.
    pub fn notified(&mut self, waiter: u64) -> (ready: bool)
        requires
            old(self)@.wf(),
            !old(self)@.waiters.contains(waiter),
        ensures
            ready == old(self)@.permit,
            final(self)@ == notified_step(old(self)@, waiter),
            final(self)@.wf(),
    {
        if self.permit {
            self.permit = false;
            true
        } else {
            self.wait_list.push_back(waiter);
            false
        }
    }

    /// Wakes the front waiter, or stores a permit when nobody waits.
    pub fn notify_one(&mut self)
        requires
            old(self)@.wf(),
        ensures
            final(self)@ == notify_one_step(old(self)@),
            final(self)@.wf(),
    {
        match self.wait_list.pop_front() {
            Some(waiter) => {
                self.woken.push(waiter);
                assert(self@.waiters =~= old(self)@.waiters.drop_first());
            },
            None => {
                self.permit = true;
            },
        }
    }

    /// Wakes every waiter queued right now, front first. No permit is
    /// stored, so later waiters are not affected.
    pub fn notify_waiters(&mut self)
        requires
            old(self)@.wf(),
        ensures
            final(self)@ == notify_waiters_step(old(self)@),
            final(self)@.wf(),
    {
        loop
            invariant
                self.permit == old(self).permit,
                self.woken@ + self.wait_list@ == old(self)@.woken + old(self)@.waiters,
            ensures
                self.wait_list@.len() == 0,
            decreases self.wait_list@.len(),
        {
            let ghost before = self.woken@ + self.wait_list@;
            match self.wait_list.pop_front() {
                Some(waiter) => {
                    self.woken.push(waiter);
                    assert(self.woken@ + self.wait_list@ =~= before);
                },
                None => {
                    assert(self.woken@ =~= old(self)@.woken + old(self)@.waiters);
                    break;
                },
            }
        }
        assert(self.woken@ + self.wait_list@ =~= self.woken@);
        assert(self.wait_list@ =~= Seq::<u64>::empty());
        assert(self@ =~= notify_waiters_step(old(self)@));
    }

    /// Hands the woken waiters to the scheduler, oldest first, and forgets
    /// them.
    pub fn take_woken(&mut self) -> (r: Vec<u64>)
        ensures
            r@ == old(self)@.woken,
            final(self)@ == (NotifyView { woken: Seq::empty(), ..old(self)@ }),
    {
        let mut out: Vec<u64> = Vec::new();
        std::mem::swap(&mut out, &mut self.woken);
        out
    }

    pub fn has_permit(&self) -> (r: bool)
        ensures
            r == self@.permit,
    {
        self.permit
    }

    /// Number of suspended waiters.
    pub fn waiting(&self) -> (r: usize)
        ensures
            r == self@.waiters.len(),
    {
        self.wait_list.len()
    }
}

} // verus!
