use crate::cell::InteriorMutability;
use crate::completion::{await_step, fire_step, Completion, CompletionView};
use vstd::prelude::*;

verus! {

/// The peer half of the channel went away before a value was handed over.
#[derive(Debug, Clone, Copy, PartialEq, Eq, Structural)]
pub struct RecvError;

/// The hang-up marker that stands in the slot while no value does.
pub open spec fn hang_up<T>() -> Result<T, RecvError> {
    Err(RecvError)
}

/// What a one-shot channel holds: the slot, whether either half has gone
/// away, and the completion the receiver waits on.
pub ghost struct OneShotView<T> {
    pub slot: Result<T, RecvError>,
    pub hungup: bool,
    pub completion: CompletionView,
}

impl<T> OneShotView<T> {
    /// A value stands in the slot only once the completion has fired.
    pub open spec fn wf(self) -> bool {
        &&& self.completion.wf()
        &&& self.slot is Ok ==> self.completion.fired
        &&& self.slot is Ok || self.slot == hang_up::<T>()
    }

    /// The sender can still send or go away: nothing has fired yet.
    pub open spec fn sender_alive(self) -> bool {
        !self.completion.fired
    }
}

/// A fresh channel.
pub open spec fn fresh_oneshot<T>() -> OneShotView<T> {
    OneShotView {
        slot: hang_up(),
        hungup: false,
        completion: CompletionView { fired: false, waiter: None, woken: Seq::empty() },
    }
}

/// The sender goes away; the receiver is woken to observe it.
pub open spec fn drop_sender_step<T>(c: OneShotView<T>) -> OneShotView<T> {
    OneShotView { hungup: true, completion: fire_step(c.completion), ..c }
}

/// `send(value)`: refused, with the value back, once the receiver has gone
/// away; else the value is stored. Either way the sender is used up.
pub open spec fn send_step<T>(c: OneShotView<T>, value: T) -> (OneShotView<T>, Result<(), T>) {
    if c.hungup {
        (drop_sender_step(c), Err(value))
    } else {
        (drop_sender_step(OneShotView { slot: Ok(value), ..c }), Ok(()))
    }
}

/// The receiver polled by task `t`: once the completion has fired, the slot
/// is taken and the hang-up marker left behind; before, `t` waits.
pub open spec fn receive_step<T>(c: OneShotView<T>, t: u64) -> (
    OneShotView<T>,
    Option<Result<T, RecvError>>,
) {
    if c.completion.fired {
        (OneShotView { slot: hang_up(), ..c }, Some(c.slot))
    } else {
        (OneShotView { completion: await_step(c.completion, t), ..c }, None)
    }
}

/// A value sent while the receiver is present is received exactly once:
/// the first poll after the send yields it, the next one yields the
/// hang-up error.
pub proof fn lemma_send_then_receive<T>(c: OneShotView<T>, value: T, t1: u64, t2: u64)
    requires
        c.wf(),
        c.sender_alive(),
        !c.hungup,
    ensures
        ({
            let (c1, sent) = send_step(c, value);
            let (c2, first) = receive_step(c1, t1);
            let (c3, second) = receive_step(c2, t2);
            &&& sent is Ok
            &&& first == Some(Ok::<T, RecvError>(value))
            &&& second == Some(hang_up::<T>())
        }),
{
}

/// A sender that goes away without sending leaves the receiver the hang-up
/// error: a receiver already waiting is woken, and its next poll, like any
/// later one, yields the error instead of waiting.
pub proof fn lemma_drop_sender_hangs_up<T>(c: OneShotView<T>, t: u64)
    requires
        c.wf(),
        c.sender_alive(),
    ensures
        ({
            let (c1, _) = receive_step(c, t);
            let c2 = drop_sender_step(c1);
            let (c3, got) = receive_step(c2, t);
            &&& c2.completion.woken == c.completion.woken.push(t)
            &&& got == Some(hang_up::<T>())
        }),
        ({
            let c1 = drop_sender_step(c);
            let (c2, got) = receive_step(c1, t);
            let (c3, again) = receive_step(c2, t);
            &&& got == Some(hang_up::<T>())
            &&& again == Some(hang_up::<T>())
        }),
{
}

/// The shared state of a single-value channel between one sender and one
/// receiver.
pub struct Channel<T> {
    slot: InteriorMutability<Result<T, RecvError>>,
    hungup: bool,
    completion: Completion,
}

impl<T> View for Channel<T> {
    type V = OneShotView<T>;

    closed spec fn view(&self) -> OneShotView<T> {
        OneShotView { slot: self.slot@, hungup: self.hungup, completion: self.completion@ }
    }
}

/// A fresh one-shot channel, with both halves present.
pub fn channel<T>() -> (r: Channel<T>)
    ensures
        r@ == fresh_oneshot::<T>(),
        r@.wf(),
{
    Channel { slot: InteriorMutability::new(Err(RecvError)), hungup: false, completion: Completion::new() }
}

impl<T> Channel<T> {
    /// The sender hands over `value` and is used up. Returns the value back
    /// when the receiver has gone away.
    pub fn send(&mut self, value: T) -> (r: Result<(), T>)
        requires
            old(self)@.wf(),
        ensures
            (final(self)@, r) == send_step(old(self)@, value),
            final(self)@.wf(),
    {
        let r = if self.hungup {
            Err(value)
        } else {
            *self.slot.as_mut() = Ok(value);
            Ok(())
        };
        self.drop_sender();
        r
    }

    /// The sender goes away; the receiver is woken to observe it.
    pub fn drop_sender(&mut self)
        requires
            old(self)@.completion.wf(),
            old(self)@.slot is Ok || old(self)@.slot == hang_up::<T>(),
        ensures
            final(self)@ == drop_sender_step(old(self)@),
            final(self)@.wf(),
    {
        self.hungup = true;
        self.completion.fire();
    }

    /// The receiver, polled by task `task`. `None` while the sender is
    /// still present and has not sent, with `task` to be woken; else the
    /// slot's content, which a second poll finds taken.
    pub fn receive(&mut self, task: u64) -> (r: Option<Result<T, RecvError>>)
        requires
            old(self)@.wf(),
        ensures
            (final(self)@, r) == receive_step(old(self)@, task),
            final(self)@.wf(),
    {
        if self.completion.is_fired() {
            Some(self.slot.replace(Err(RecvError)))
        } else {
            self.completion.await_once(task);
            None
        }
    }

    /// The receiver goes away; a later send is refused.
    pub fn drop_receiver(&mut self)
        ensures
            final(self)@ == (OneShotView { hungup: true, ..old(self)@ }),
    {
        self.hungup = true;
    }

    /// Hands the woken receiver task to the scheduler.
    pub fn take_woken(&mut self) -> (r: Vec<u64>)
        ensures
            r@ == old(self)@.completion.woken,
            final(self)@ == (OneShotView {
                completion: CompletionView { woken: Seq::empty(), ..old(self)@.completion },
                ..old(self)@
            }),
    {
        self.completion.take_woken()
    }
}

} // verus!
