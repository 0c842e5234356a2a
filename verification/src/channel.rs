use std::marker::PhantomData;
use std::rc::Rc;
use std::sync::atomic::AtomicU64;
use std::sync::atomic::Ordering;
use vstd::prelude::*;
use crate::spin_lock::SpinLock;
use crate::spin_lock::any_value;
use crate::cas::compare_exchange_u64;
use crate::cas::exchange_of;
use crate::cas::store_u64;
use crate::cas::Exchange;

verus! {

/// The value of a set flag (`in_use`, `ready`); a clear flag holds 0.
pub const SET: u64 = 1;

/// What a send does once its claim of `in_use` found what it found.
#[derive(Clone, Copy, Debug, PartialEq, Eq, Structural)]
pub enum SendAction {
    /// Another send had claimed the channel: write nothing, hand the message back.
    Refuse,
    /// This send claimed the channel: put the message into the slot and set `ready`.
    Deliver,
}

/// What a send does after its claim of `in_use` found the flag set (`was_in_use`) or clear.
pub open spec fn send_decision(was_in_use: bool) -> SendAction {
    if was_in_use {
        SendAction::Refuse
    } else {
        SendAction::Deliver
    }
}

/// What a receive does after its claim of `ready` found the flag set (`was_ready`) or clear.
pub open spec fn receive_decision(was_ready: bool) -> ReceiveAction {
    if was_ready {
        ReceiveAction::Take
    } else {
        ReceiveAction::Nothing
    }
}

/// Decides what a send does after its claim of `in_use` found the flag set (`was_in_use`) or clear.
pub fn send_action(was_in_use: bool) -> (a: SendAction)
    ensures
        a == send_decision(was_in_use),
        was_in_use ==> a == SendAction::Refuse,
        !was_in_use ==> a == SendAction::Deliver,
{
    if was_in_use {
        SendAction::Refuse
    } else {
        SendAction::Deliver
    }
}

/// What a receive does once its claim of `ready` found what it found.
#[derive(Clone, Copy, Debug, PartialEq, Eq, Structural)]
pub enum ReceiveAction {
    /// No message was ready: take nothing.
    Nothing,
    /// The message was ready, and this receive consumed the flag: take it.
    Take,
}

/// Decides what a receive does after its claim of `ready` found the flag set (`was_ready`) or clear.
pub fn receive_action(was_ready: bool) -> (a: ReceiveAction)
    ensures
        a == receive_decision(was_ready),
        was_ready ==> a == ReceiveAction::Take,
        !was_ready ==> a == ReceiveAction::Nothing,
{
    if was_ready {
        ReceiveAction::Take
    } else {
        ReceiveAction::Nothing
    }
}

/// Takes the message out of `slot`, leaving it empty. The slot is shared with other
/// threads, so what it held is not known here.
fn take_message<T>(slot: &SpinLock<Option<T>>) -> Option<T>
    requires
        slot.inv() == any_value::<Option<T>>(),
{
    let mut guard = slot.lock();
    let message = guard.deref_mut().take();
    guard.release();
    message
}

/// Puts `message` into `slot`.
fn put_message<T>(slot: &SpinLock<Option<T>>, message: T)
    requires
        slot.inv() == any_value::<Option<T>>(),
{
    let mut guard = slot.lock();
    *guard.deref_mut() = Some(message);
    guard.release();
}

/// A channel for one message that any thread may send on and any thread may receive
/// from. A second send is refused, and so is a receive when no message is ready. Its
/// flags hold 0 (clear) or `SET`. A send claims `in_use` by one exchange of 0 for
/// `SET`, which has the effect of a swap of `SET` into the flag; a receive claims
/// `ready` by one exchange of `SET` for 0, which has the effect of a swap of 0 into it.
#[verifier::reject_recursive_types(T)]
pub struct OneShotChannel<T> {
    message: SpinLock<Option<T>>,
    ready: AtomicU64,
    in_use: AtomicU64,
}

impl<T> OneShotChannel<T> {
    #[verifier::type_invariant]
    closed spec fn wf(self) -> bool {
        self.message.inv() == any_value::<Option<T>>()
    }

    /// An empty channel that no one has sent on.
    pub fn new() -> (c: Self) {
        OneShotChannel {
            message: SpinLock::new(None),
            ready: AtomicU64::new(0),
            in_use: AtomicU64::new(0),
        }
    }

    /// Finishes a send whose claim of `in_use` (an exchange of 0 for `SET`) gave `claim`:
    /// `send_action` decides from what the claim found. `Refuse` writes nothing and hands
    /// the message back; `Deliver` puts it into the slot, sets `ready`, and succeeds.
    fn finish_send(&self, claim: Exchange, message: T) -> (r: Result<(), T>)
        requires
            exchange_of(claim, 0, SET),
        ensures
            claim.previous is Err ==> r == Err::<(), T>(message),
            claim.previous is Ok ==> r == Ok::<(), T>(()),
    {
        proof {
            use_type_invariant(self);
        }
        let was_in_use = match claim.previous {
            Ok(_) => false,
            Err(_) => true,
        };
        match send_action(was_in_use) {
            SendAction::Refuse => Err(message),
            SendAction::Deliver => {
                put_message(&self.message, message);
                store_u64(&self.ready, SET, Ordering::Release);
                Ok(())
            },
        }
    }

    /// Sends `message`, unless a message was sent on this channel before: then the
    /// message comes back in `Err`. It claims `in_use` by one exchange of 0 for `SET`,
    /// and `finish_send` takes only that exchange. The protocol is modelled in
    /// `one_shot_protocol`, where its laws are proved and `send_action` is shown to take
    /// the model's claim step; the model is not tied to this code's atomics by a proof.
    pub fn send(&self, message: T) -> (r: Result<(), T>)
        ensures
            r == Ok::<(), T>(()) || r == Err::<(), T>(message),
    {
        let claim = compare_exchange_u64(&self.in_use, 0, SET, Ordering::Relaxed, Ordering::Relaxed);
        self.finish_send(claim, message)
    }

    /// Whether a message is waiting to be received.
    pub fn is_ready(&self) -> bool {
        self.ready.load(Ordering::Relaxed) == SET
    }

    /// Finishes a receive whose claim of `ready` (an exchange of `SET` for 0) gave
    /// `claim`: `receive_action` decides from what the claim found. `Nothing` takes
    /// nothing; `Take` takes the message out of the slot.
    fn finish_receive(&self, claim: Exchange) -> (r: Option<T>)
        requires
            exchange_of(claim, SET, 0),
        ensures
            claim.previous is Err ==> r is None,
    {
        proof {
            use_type_invariant(self);
        }
        let was_ready = match claim.previous {
            Ok(_) => true,
            Err(_) => false,
        };
        match receive_action(was_ready) {
            ReceiveAction::Nothing => None,
            ReceiveAction::Take => take_message(&self.message),
        }
    }

    /// Takes the message, if one is ready and was not received before; `None` otherwise.
    /// It claims `ready` by one exchange of `SET` for 0, which leaves the flag clear
    /// whatever it found, and `finish_receive` takes only that exchange.
    pub fn receive(&self) -> Option<T> {
        let claim = compare_exchange_u64(&self.ready, SET, 0, Ordering::Acquire, Ordering::Acquire);
        self.finish_receive(claim)
    }

    /// Consumes the channel and hands back the message that it still holds, if any.
    pub fn into_message(self) -> Option<T> {
        proof {
            use_type_invariant(&self);
        }
        self.message.into_inner()
    }
}

/// A channel for one message, split into a `Sender` and a `Receiver` that borrow it.
#[verifier::reject_recursive_types(T)]
pub struct Channel<T> {
    message: SpinLock<Option<T>>,
    ready: AtomicU64,
}

/// The sending half of a split `Channel`; sending consumes it.
#[verifier::reject_recursive_types(T)]
pub struct Sender<'a, T> {
    channel: &'a Channel<T>,
}

/// The receiving half of a split `Channel`. It stays on the thread that split the
/// channel: the `Rc` marker keeps it from being sent to another thread.
#[verifier::reject_recursive_types(T)]
pub struct Receiver<'a, T> {
    channel: &'a Channel<T>,
    no_send: PhantomData<Rc<()>>,
}

impl<T> Channel<T> {
    #[verifier::type_invariant]
    closed spec fn wf(self) -> bool {
        self.message.inv() == any_value::<Option<T>>()
    }

    /// An empty channel.
    pub fn new() -> (c: Self) {
        Channel { message: SpinLock::new(None), ready: AtomicU64::new(0) }
    }

    /// Consumes the channel and hands back the message that it still holds, if any.
    pub fn into_message(self) -> Option<T> {
        proof {
            use_type_invariant(&self);
        }
        self.message.into_inner()
    }

    /// Empties the channel and splits it into its two halves, which borrow it.
    pub fn split<'a>(&'a mut self) -> (r: (Sender<'a, T>, Receiver<'a, T>))
        ensures
            r.0.channel() == r.1.channel(),
    {
        *self = Self::new();
        let shared: &'a Channel<T> = self;
        (Sender { channel: shared }, Receiver { channel: shared, no_send: PhantomData })
    }
}

impl<'a, T> Sender<'a, T> {
    /// The channel that this half belongs to.
    pub closed spec fn channel(&self) -> Channel<T> {
        *self.channel
    }

    /// Puts `message` into the channel and marks it ready. Sending consumes the one
    /// sender that the split made, so no claim of the channel is needed.
    pub fn send(self, message: T) {
        proof {
            use_type_invariant(self.channel);
        }
        put_message(&self.channel.message, message);
        store_u64(&self.channel.ready, SET, Ordering::Release);
    }
}

impl<'a, T> Receiver<'a, T> {
    /// The channel that this half belongs to.
    pub closed spec fn channel(&self) -> Channel<T> {
        *self.channel
    }

    /// Whether the message has been sent.
    pub fn is_ready(&self) -> bool {
        self.channel.ready.load(Ordering::Relaxed) == SET
    }

    /// Finishes a receive whose claim of `ready` (an exchange of `SET` for 0) gave
    /// `claim`: `receive_action` decides from what the claim found. `Nothing` takes
    /// nothing; `Take` takes the message out of the slot.
    fn finish_receive(&self, claim: Exchange) -> (r: Option<T>)
        requires
            exchange_of(claim, SET, 0),
        ensures
            claim.previous is Err ==> r is None,
    {
        proof {
            use_type_invariant(self.channel);
        }
        let was_ready = match claim.previous {
            Ok(_) => true,
            Err(_) => false,
        };
        match receive_action(was_ready) {
            ReceiveAction::Nothing => None,
            ReceiveAction::Take => take_message(&self.channel.message),
        }
    }

    /// One attempt to receive: takes the message if it is ready, `None` otherwise. It
    /// claims `ready` by one exchange of `SET` for 0, which leaves the flag clear whatever
    /// it found, and `finish_receive` takes only that exchange.
    pub fn try_receive(&self) -> Option<T> {
        let claim = compare_exchange_u64(
            &self.channel.ready,
            SET,
            0,
            Ordering::Acquire,
            Ordering::Acquire,
        );
        self.finish_receive(claim)
    }
}

} // verus!
