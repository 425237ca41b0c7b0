use crate::cell::InteriorMutability;
use crate::notify::{
    lemma_drop_first_distinct, lemma_push_fresh, notified_step, notify_one_step,
    notify_waiters_step, Notify, NotifyView,
};
use vstd::prelude::*;

verus! {

/// What an `RwLock` holds. `writers` counts the writers holding or queued,
/// `readers` the readers holding or queued; the queued ones wait on the
/// notify of their role.
pub ghost struct RwLockView<T> {
    pub writers: nat,
    pub readers: nat,
    pub write_notify: NotifyView,
    pub read_notify: NotifyView,
    pub value: T,
}

impl<T> RwLockView<T> {
    /// Writers that hold the lock (woken or admitted at once).
    pub open spec fn held_writes(self) -> int {
        self.writers - self.write_notify.waiters.len()
    }

    /// Readers that hold the lock.
    pub open spec fn held_reads(self) -> int {
        self.readers - self.read_notify.waiters.len()
    }

    pub open spec fn wf(self) -> bool {
        &&& self.write_notify.wf()
        &&& self.read_notify.wf()
        &&& !self.write_notify.permit
        &&& !self.read_notify.permit
        &&& 0 <= self.held_writes() <= 1
        &&& 0 <= self.held_reads()
        &&& self.held_writes() == 1 ==> self.held_reads() == 0
        &&& self.read_notify.waiters.len() > 0 ==> self.writers > 0
    }
}

/// `write` by task `t`: admitted at once when nobody holds or waits,
/// else counted and queued behind the earlier writers.
pub open spec fn write_step<T>(v: RwLockView<T>, t: u64) -> RwLockView<T> {
    if v.writers == 0 && v.readers == 0 {
        RwLockView { writers: 1, ..v }
    } else {
        RwLockView { writers: v.writers + 1, write_notify: notified_step(v.write_notify, t), ..v }
    }
}

/// `read` by task `t`: admitted at once unless a writer holds or waits.
pub open spec fn read_step<T>(v: RwLockView<T>, t: u64) -> RwLockView<T> {
    if v.writers == 0 {
        RwLockView { readers: v.readers + 1, ..v }
    } else {
        RwLockView { readers: v.readers + 1, read_notify: notified_step(v.read_notify, t), ..v }
    }
}

/// A writer lets go: the next writer is woken, else every queued reader.
pub open spec fn release_write_step<T>(v: RwLockView<T>) -> RwLockView<T> {
    let w = (v.writers - 1) as nat;
    if w > 0 {
        RwLockView { writers: w, write_notify: notify_one_step(v.write_notify), ..v }
    } else if v.readers > 0 {
        RwLockView { writers: w, read_notify: notify_waiters_step(v.read_notify), ..v }
    } else {
        RwLockView { writers: w, ..v }
    }
}

/// A reader lets go: the last one out wakes the next writer.
pub open spec fn release_read_step<T>(v: RwLockView<T>) -> RwLockView<T> {
    let r = (v.readers - 1) as nat;
    if r == 0 && v.writers > 0 {
        RwLockView { readers: r, write_notify: notify_one_step(v.write_notify), ..v }
    } else {
        RwLockView { readers: r, ..v }
    }
}

pub proof fn lemma_write_step_wf<T>(v: RwLockView<T>, t: u64)
    requires
        v.wf(),
        !v.write_notify.waiters.contains(t),
    ensures
        write_step(v, t).wf(),
{
    if !(v.writers == 0 && v.readers == 0) {
        lemma_push_fresh(v.write_notify.waiters, t);
    }
}

pub proof fn lemma_read_step_wf<T>(v: RwLockView<T>, t: u64)
    requires
        v.wf(),
        !v.read_notify.waiters.contains(t),
    ensures
        read_step(v, t).wf(),
{
    if v.writers != 0 {
        lemma_push_fresh(v.read_notify.waiters, t);
    }
}

pub proof fn lemma_release_write_step_wf<T>(v: RwLockView<T>)
    requires
        v.wf(),
        v.held_writes() == 1,
    ensures
        release_write_step(v).wf(),
        release_write_step(v).held_reads() == 0 || release_write_step(v).held_writes() == 0,
{
    let w = (v.writers - 1) as nat;
    if w > 0 {
        lemma_drop_first_distinct(v.write_notify.waiters);
    }
}

pub proof fn lemma_release_read_step_wf<T>(v: RwLockView<T>)
    requires
        v.wf(),
        v.held_reads() > 0,
    ensures
        release_read_step(v).wf(),
{
    let r = (v.readers - 1) as nat;
    if r == 0 && v.writers > 0 {
        lemma_drop_first_distinct(v.write_notify.waiters);
    }
}

/// One operation on a lock, as an interleaving of tasks issues them.
pub ghost enum LockEvent {
    Write(u64),
    Read(u64),
    ReleaseWrite,
    ReleaseRead,
}

/// An operation may be issued: a task is queued at most once per role, and
/// only a holder lets go.
pub open spec fn event_enabled<T>(v: RwLockView<T>, e: LockEvent) -> bool {
    match e {
        LockEvent::Write(t) => !v.write_notify.waiters.contains(t),
        LockEvent::Read(t) => !v.read_notify.waiters.contains(t),
        LockEvent::ReleaseWrite => v.held_writes() == 1,
        LockEvent::ReleaseRead => v.held_reads() > 0,
    }
}

pub open spec fn event_step<T>(v: RwLockView<T>, e: LockEvent) -> RwLockView<T> {
    match e {
        LockEvent::Write(t) => write_step(v, t),
        LockEvent::Read(t) => read_step(v, t),
        LockEvent::ReleaseWrite => release_write_step(v),
        LockEvent::ReleaseRead => release_read_step(v),
    }
}

/// The lock after the events, first to last.
pub open spec fn run_events<T>(v: RwLockView<T>, evs: Seq<LockEvent>) -> RwLockView<T>
    decreases evs.len(),
{
    if evs.len() == 0 {
        v
    } else {
        event_step(run_events(v, evs.drop_last()), evs.last())
    }
}

/// Every event may be issued in the state that the earlier ones leave.
pub open spec fn events_enabled<T>(v: RwLockView<T>, evs: Seq<LockEvent>) -> bool
    decreases evs.len(),
{
    evs.len() == 0 || (events_enabled(v, evs.drop_last()) && event_enabled(
        run_events(v, evs.drop_last()),
        evs.last(),
    ))
}

/// Under every interleaving of acquisitions and releases, a writer never
/// holds the lock beside another holder: at most one writer holds it, and
/// no reader while one does.
pub proof fn lemma_exclusive<T>(v: RwLockView<T>, evs: Seq<LockEvent>)
    requires
        v.wf(),
        events_enabled(v, evs),
    ensures
        run_events(v, evs).wf(),
        0 <= run_events(v, evs).held_writes() <= 1,
        run_events(v, evs).held_writes() == 1 ==> run_events(v, evs).held_reads() == 0,
    decreases evs.len(),
{
    if evs.len() > 0 {
        lemma_exclusive(v, evs.drop_last());
        let u = run_events(v, evs.drop_last());
        match evs.last() {
            LockEvent::Write(t) => lemma_write_step_wf(u, t),
            LockEvent::Read(t) => lemma_read_step_wf(u, t),
            LockEvent::ReleaseWrite => lemma_release_write_step_wf(u),
            LockEvent::ReleaseRead => lemma_release_read_step_wf(u),
        }
    }
}

/// Writer priority: a reader waits exactly when some writer holds the lock
/// or is queued for it; readers alone never hold one another up.
pub proof fn lemma_reader_waits_only_for_writers<T>(v: RwLockView<T>, t: u64)
    requires
        v.wf(),
    ensures
        read_step(v, t).held_reads() == v.held_reads() + 1 <==> v.writers == 0,
        v.writers > 0 ==> read_step(v, t).read_notify.waiters == v.read_notify.waiters.push(t),
{
}

/// A reader/writer lock with writer priority: once a writer is counted,
/// arriving readers queue behind it.
pub struct RwLock<T> {
    writers: usize,
    write_notify: Notify,
    readers: usize,
    read_notify: Notify,
    value: InteriorMutability<T>,
}

impl<T> View for RwLock<T> {
    type V = RwLockView<T>;

    closed spec fn view(&self) -> RwLockView<T> {
        RwLockView {
            writers: self.writers as nat,
            readers: self.readers as nat,
            write_notify: self.write_notify@,
            read_notify: self.read_notify@,
            value: self.value@,
        }
    }
}

impl<T> RwLock<T> {
    pub fn new(value: T) -> (r: Self)
        ensures
            r@.wf(),
            r@.writers == 0,
            r@.readers == 0,
            r@.write_notify.waiters.len() == 0,
            r@.read_notify.waiters.len() == 0,
            r@.write_notify.woken.len() == 0,
            r@.read_notify.woken.len() == 0,
            r@.value == value,
    {
        RwLock {
            writers: 0,
            write_notify: Notify::new(),
            readers: 0,
            read_notify: Notify::new(),
            value: InteriorMutability::new(value),
        }
    }

    /// Task `task` asks for write access. Returns `true` when it holds the
    /// lock at once; `false` when it is queued and will be woken.
    pub fn write(&mut self, task: u64) -> (acquired: bool)
        requires
            old(self)@.wf(),
            !old(self)@.write_notify.waiters.contains(task),
            old(self)@.writers < usize::MAX,
        ensures
            acquired == (old(self)@.writers == 0 && old(self)@.readers == 0),
            final(self)@ == write_step(old(self)@, task),
            final(self)@.wf(),
    {
        proof {
            lemma_write_step_wf(self@, task);
        }
        if self.writers == 0 && self.readers == 0 {
            self.writers = self.writers + 1;
            true
        } else {
            self.writers = self.writers + 1;
            self.write_notify.notified(task)
        }
    }

    /// Task `task` asks for read access. Returns `true` when it holds the
    /// lock at once, which is so exactly when no writer holds or waits;
    /// `false` when it is queued and will be woken.
    pub fn read(&mut self, task: u64) -> (acquired: bool)
        requires
            old(self)@.wf(),
            !old(self)@.read_notify.waiters.contains(task),
            old(self)@.readers < usize::MAX,
        ensures
            acquired == (old(self)@.writers == 0),
            final(self)@ == read_step(old(self)@, task),
            final(self)@.wf(),
    {
        proof {
            lemma_read_step_wf(self@, task);
        }
        if self.writers == 0 {
            self.readers = self.readers + 1;
            true
        } else {
            self.readers = self.readers + 1;
            self.read_notify.notified(task)
        }
    }

    /// The writer that holds the lock lets go. The next queued writer is
    /// woken; when none is left, every queued reader is.
    pub fn release_write(&mut self)
        requires
            old(self)@.wf(),
            old(self)@.held_writes() == 1,
        ensures
            final(self)@ == release_write_step(old(self)@),
            final(self)@.wf(),
    {
        proof {
            lemma_release_write_step_wf(self@);
        }
        self.writers = self.writers - 1;
        if self.writers > 0 {
            self.write_notify.notify_one();
        } else if self.readers > 0 {
            self.read_notify.notify_waiters();
        }
    }

    /// A reader that holds the lock lets go. The last reader out wakes the
    /// next queued writer.
    pub fn release_read(&mut self)
        requires
            old(self)@.wf(),
            old(self)@.held_reads() > 0,
        ensures
            final(self)@ == release_read_step(old(self)@),
            final(self)@.wf(),
    {
        proof {
            lemma_release_read_step_wf(self@);
        }
        self.readers = self.readers - 1;
        if self.readers == 0 && self.writers > 0 {
            self.write_notify.notify_one();
        }
    }

    /// Hands the woken tasks to the scheduler: woken writers first, then
    /// woken readers, each oldest first.
    pub fn take_woken(&mut self) -> (r: Vec<u64>)
        requires
            old(self)@.wf(),
        ensures
            r@ == old(self)@.write_notify.woken + old(self)@.read_notify.woken,
            final(self)@ == (RwLockView {
                write_notify: NotifyView { woken: Seq::empty(), ..old(self)@.write_notify },
                read_notify: NotifyView { woken: Seq::empty(), ..old(self)@.read_notify },
                ..old(self)@
            }),
            final(self)@.wf(),
    {
        let mut r = self.write_notify.take_woken();
        let mut readers = self.read_notify.take_woken();
        r.append(&mut readers);
        r
    }

    /// The protected value, for a holder of either kind.
    pub fn value(&self) -> (r: &T)
        ensures
            *r == self@.value,
    {
        self.value.as_ref()
    }

    /// The protected value, for the writer that holds the lock.
    pub fn value_mut(&mut self) -> (r: &mut T)
        ensures
            *r == old(self)@.value,
            final(self)@ == (RwLockView { value: *final(r), ..old(self)@ }),
    {
        self.value.as_mut()
    }

    /// Writers that hold the lock: at most one.
    pub fn holding_writers(&self) -> (r: usize)
        requires
            self@.wf(),
        ensures
            r == self@.held_writes(),
    {
        self.writers - self.write_notify.waiting()
    }

    /// Readers that hold the lock.
    pub fn holding_readers(&self) -> (r: usize)
        requires
            self@.wf(),
        ensures
            r == self@.held_reads(),
    {
        self.readers - self.read_notify.waiting()
    }

    /// Writers that hold or wait for the lock.
    pub fn writers(&self) -> (r: usize)
        ensures
            r == self@.writers,
    {
        self.writers
    }

    /// Readers that hold or wait for the lock.
    pub fn readers(&self) -> (r: usize)
        ensures
            r == self@.readers,
    {
        self.readers
    }
}

} // verus!
