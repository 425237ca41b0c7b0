use vstd::prelude::*;

verus! {

/// What a `Completion` holds: whether it has fired, the task waiting for
/// it, and the tasks woken but not yet handed to the scheduler.
pub ghost struct CompletionView {
    pub fired: bool,
    pub waiter: Option<u64>,
    pub woken: Seq<u64>,
}

impl CompletionView {
    /// A task waits only on a completion that has not fired.
    pub open spec fn wf(self) -> bool {
        self.fired ==> self.waiter is None
    }
}

/// `fire`: the first call wakes the waiting task, if any; later calls do
/// nothing.
pub open spec fn fire_step(c: CompletionView) -> CompletionView {
    if c.fired {
        c
    } else {
        CompletionView {
            fired: true,
            waiter: None,
            woken: match c.waiter {
                Some(w) => c.woken.push(w),
                None => c.woken,
            },
        }
    }
}

/// `await_once` by task `t`: done when fired, else `t` becomes the waiter.
pub open spec fn await_step(c: CompletionView, t: u64) -> CompletionView {
    if c.fired {
        c
    } else {
        CompletionView { waiter: Some(t), ..c }
    }
}

/// A unit of work that completes once, when some other party fires it.
pub struct Completion {
    fired: bool,
    waiter: Option<u64>,
    woken: Vec<u64>,
}

impl View for Completion {
    type V = CompletionView;

    closed spec fn view(&self) -> CompletionView {
        CompletionView { fired: self.fired, waiter: self.waiter, woken: self.woken@ }
    }
}

impl Completion {
    pub fn new() -> (r: Completion)
        ensures
            r@ == (CompletionView { fired: false, waiter: None, woken: Seq::empty() }),
    {
        Completion { fired: false, waiter: None, woken: Vec::new() }
    }

    /// Task `task` waits for the completion. Returns `true` when it has
    /// fired already; `false` when `task` is now the one to wake.
    pub fn await_once(&mut self, task: u64) -> (done: bool)
        requires
            old(self)@.wf(),
        ensures
            done == old(self)@.fired,
            final(self)@ == await_step(old(self)@, task),
            final(self)@.wf(),
    {
        if self.fired {
            true
        } else {
            self.waiter = Some(task);
            false
        }
    }

    /// Completes the work and wakes its waiter; only the first call counts.
    pub fn fire(&mut self)
        requires
            old(self)@.wf(),
        ensures
            final(self)@ == fire_step(old(self)@),
            final(self)@.wf(),
    {
        if !self.fired {
            self.fired = true;
            match self.waiter.take() {
                Some(w) => self.woken.push(w),
                None => {},
            }
        }
    }

    pub fn is_fired(&self) -> (r: bool)
        ensures
            r == self@.fired,
    {
        self.fired
    }

    /// Hands the woken tasks to the scheduler and forgets them.
    pub fn take_woken(&mut self) -> (r: Vec<u64>)
        ensures
            r@ == old(self)@.woken,
            final(self)@ == (CompletionView { woken: Seq::empty(), ..old(self)@ }),
    {
        let mut out: Vec<u64> = Vec::new();
        std::mem::swap(&mut out, &mut self.woken);
        out
    }
}

} // verus!
