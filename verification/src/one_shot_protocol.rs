use vstd::prelude::*;
use crate::channel::receive_decision;
use crate::channel::send_decision;
use crate::channel::ReceiveAction;
use crate::channel::SendAction;

verus! {

/// How far an accepted send has got.
pub enum SendPhase<M> {
    /// The sender won the `in_use` flag and is about to write its message.
    Claimed(M),
    /// The message is in the slot; the sender is about to set `ready`.
    Written(M),
}

/// The shared state of a one-shot channel, as its threads see it when their steps are
/// taken one at a time: the two flags, the message slot, the threads in the middle of
/// an accepted send or of a receive that found the message ready, and the history of
/// the messages that were accepted and of those that were handed to receivers.
pub struct OneShotState<M> {
    pub in_use: bool,
    pub ready: bool,
    pub slot: Option<M>,
    pub senders: Map<int, SendPhase<M>>,
    pub receivers: Set<int>,
    pub accepted: Seq<M>,
    pub delivered: Seq<M>,
}

/// One atomic step of one thread.
pub enum OneShotEvent<M> {
    /// Thread `t` starts sending `m`: it swaps `true` into `in_use`; the send is
    /// accepted when the flag held `false`, and refused otherwise.
    SendClaim(int, M),
    /// Thread `t` writes its accepted message into the slot.
    SendWrite(int),
    /// Thread `t` stores `true` into `ready`, which ends its send.
    SendPublish(int),
    /// Thread `t` starts receiving: it swaps `false` into `ready`; it goes on when the
    /// flag held `true`, and gets nothing otherwise.
    ReceiveClaim(int),
    /// Thread `t` takes the message out of the slot, which ends its receive.
    ReceiveTake(int),
}

/// A new channel.
pub open spec fn one_shot_init<M>() -> OneShotState<M> {
    OneShotState {
        in_use: false,
        ready: false,
        slot: None,
        senders: Map::empty(),
        receivers: Set::empty(),
        accepted: Seq::empty(),
        delivered: Seq::empty(),
    }
}

/// The effect of one step. A step that its thread cannot take in its current phase
/// changes nothing.
pub open spec fn one_shot_step<M>(s: OneShotState<M>, e: OneShotEvent<M>) -> OneShotState<M> {
    match e {
        OneShotEvent::SendClaim(t, m) => {
            if s.senders.contains_key(t) || s.in_use {
                s
            } else {
                OneShotState {
                    in_use: true,
                    senders: s.senders.insert(t, SendPhase::Claimed(m)),
                    accepted: s.accepted.push(m),
                    ..s
                }
            }
        },
        OneShotEvent::SendWrite(t) => {
            if s.senders.contains_key(t) && s.senders[t] is Claimed {
                let m = s.senders[t]->Claimed_0;
                OneShotState {
                    slot: Some(m),
                    senders: s.senders.insert(t, SendPhase::Written(m)),
                    ..s
                }
            } else {
                s
            }
        },
        OneShotEvent::SendPublish(t) => {
            if s.senders.contains_key(t) && s.senders[t] is Written {
                OneShotState { ready: true, senders: s.senders.remove(t), ..s }
            } else {
                s
            }
        },
        OneShotEvent::ReceiveClaim(t) => {
            if s.receivers.contains(t) || !s.ready {
                s
            } else {
                OneShotState { ready: false, receivers: s.receivers.insert(t), ..s }
            }
        },
        OneShotEvent::ReceiveTake(t) => {
            if s.receivers.contains(t) && s.slot is Some {
                OneShotState {
                    slot: None,
                    receivers: s.receivers.remove(t),
                    delivered: s.delivered.push(s.slot->Some_0),
                    ..s
                }
            } else {
                s
            }
        },
    }
}

/// The state after the steps `events`, taken in order from a new channel.
pub open spec fn one_shot_run<M>(events: Seq<OneShotEvent<M>>) -> OneShotState<M>
    decreases events.len(),
{
    if events.len() == 0 {
        one_shot_init()
    } else {
        one_shot_step(one_shot_run(events.drop_last()), events.last())
    }
}

/// No thread is in the middle of a send.
pub open spec fn no_sender<M>(s: OneShotState<M>) -> bool {
    forall|u: int| !s.senders.contains_key(u)
}

/// No thread is in the middle of a receive.
pub open spec fn no_receiver<M>(s: OneShotState<M>) -> bool {
    forall|u: int| !s.receivers.contains(u)
}

/// What every reachable state keeps.
pub open spec fn one_shot_inv<M>(s: OneShotState<M>) -> bool {
    &&& s.accepted.len() <= 1
    &&& s.delivered.len() <= 1
    &&& s.in_use <==> s.accepted.len() == 1
    &&& forall|t1: int, t2: int|
        s.senders.contains_key(t1) && s.senders.contains_key(t2) ==> t1 == t2
    &&& forall|t1: int, t2: int| s.receivers.contains(t1) && s.receivers.contains(t2) ==> t1 == t2
    &&& forall|t: int| #[trigger]
        s.senders.contains_key(t) ==> {
            &&& s.accepted.len() == 1
            &&& !s.ready
            &&& no_receiver(s)
            &&& s.delivered.len() == 0
            &&& match s.senders[t] {
                SendPhase::Claimed(m) => m == s.accepted[0] && s.slot is None,
                SendPhase::Written(m) => m == s.accepted[0] && s.slot == Some(m),
            }
        }
    &&& s.ready ==> {
        &&& s.accepted.len() == 1
        &&& no_sender(s)
        &&& no_receiver(s)
        &&& s.slot == Some(s.accepted[0])
        &&& s.delivered.len() == 0
    }
    &&& forall|t: int| #[trigger]
        s.receivers.contains(t) ==> {
            &&& s.accepted.len() == 1
            &&& !s.ready
            &&& no_sender(s)
            &&& s.slot == Some(s.accepted[0])
            &&& s.delivered.len() == 0
        }
    &&& s.delivered.len() == 1 ==> {
        &&& s.accepted.len() == 1
        &&& s.delivered[0] == s.accepted[0]
        &&& s.slot is None
        &&& !s.ready
        &&& no_sender(s)
        &&& no_receiver(s)
    }
    &&& s.accepted.len() == 0 ==> {
        &&& s.slot is None
        &&& !s.ready
        &&& no_sender(s)
        &&& no_receiver(s)
    }
    &&& s.accepted.len() == 1 && no_sender(s) && !s.ready && no_receiver(s) ==> s.delivered.len()
        == 1
}

proof fn lemma_one_shot_step_keeps_inv<M>(s: OneShotState<M>, e: OneShotEvent<M>)
    requires
        one_shot_inv(s),
    ensures
        one_shot_inv(one_shot_step(s, e)),
{
    let s2 = one_shot_step(s, e);
    match e {
        OneShotEvent::SendClaim(t, m) => {
            if !(s.senders.contains_key(t) || s.in_use) {
                assert(s2.accepted =~= seq![m]);
                assert(s2.senders.contains_key(t));
                assert forall|u: int| s2.senders.contains_key(u) implies u == t by {
                    assert(!s.senders.contains_key(u));
                }
            }
        },
        OneShotEvent::SendWrite(t) => {
            if s.senders.contains_key(t) && s.senders[t] is Claimed {
                assert forall|u: int| s2.senders.contains_key(u) implies u == t by {}
                assert(s2.senders.contains_key(t));
            }
        },
        OneShotEvent::SendPublish(t) => {
            if s.senders.contains_key(t) && s.senders[t] is Written {
                assert forall|u: int| !s2.senders.contains_key(u) by {
                    if s.senders.contains_key(u) {
                        assert(u == t);
                    }
                }
            }
        },
        OneShotEvent::ReceiveClaim(t) => {
            if !(s.receivers.contains(t) || !s.ready) {
                assert forall|u: int| s2.receivers.contains(u) implies u == t by {
                    assert(!s.receivers.contains(u));
                }
                assert(s2.receivers.contains(t));
            }
        },
        OneShotEvent::ReceiveTake(t) => {
            if s.receivers.contains(t) && s.slot is Some {
                assert forall|u: int| !s2.receivers.contains(u) by {
                    if s.receivers.contains(u) {
                        assert(u == t);
                    }
                }
                assert(s2.delivered =~= seq![s.accepted[0]]);
            }
        },
    }
}

/// Every state that the steps of any interleaving reach keeps `one_shot_inv`.
pub proof fn one_shot_invariant<M>(events: Seq<OneShotEvent<M>>)
    ensures
        one_shot_inv(one_shot_run(events)),
    decreases events.len(),
{
    if events.len() > 0 {
        one_shot_invariant(events.drop_last());
        lemma_one_shot_step_keeps_inv(one_shot_run(events.drop_last()), events.last());
    }
}

/// However the threads interleave, at most one send is accepted, at most one message
/// is received, and a received message is the one that was sent.
pub proof fn one_shot_delivers_at_most_once<M>(events: Seq<OneShotEvent<M>>)
    ensures
        one_shot_run(events).accepted.len() <= 1,
        one_shot_run(events).delivered.len() <= 1,
        one_shot_run(events).delivered.len() == 1 ==> one_shot_run(events).delivered[0]
            == one_shot_run(events).accepted[0],
{
    one_shot_invariant(events);
}

/// A receiver that found `ready` set finds the sent message in the slot: a receive
/// never reads a slot that holds no message.
pub proof fn one_shot_receiver_finds_message<M>(events: Seq<OneShotEvent<M>>, t: int)
    requires
        one_shot_run(events).receivers.contains(t),
    ensures
        one_shot_run(events).slot == Some(one_shot_run(events).accepted[0]),
{
    one_shot_invariant(events);
}

/// Once a send was accepted, every later send is refused and changes nothing.
pub proof fn one_shot_second_send_refused<M>(events: Seq<OneShotEvent<M>>, t: int, m: M)
    requires
        one_shot_run(events).accepted.len() == 1,
    ensures
        one_shot_step(one_shot_run(events), OneShotEvent::SendClaim(t, m)) == one_shot_run(
            events,
        ),
{
    one_shot_invariant(events);
}

/// `send_action` takes the model's claim step: a send whose swap of `in_use` found the
/// flag's value delivers exactly when the model accepts its message, and the claim is
/// one step that sets the flag, so after it no later claim is accepted.
pub proof fn send_action_takes_claim<M>(events: Seq<OneShotEvent<M>>, t: int, m: M)
    requires
        !one_shot_run(events).senders.contains_key(t),
    ensures
        ({
            let s = one_shot_run(events);
            let s2 = one_shot_step(s, OneShotEvent::SendClaim(t, m));
            &&& send_decision(s.in_use) == SendAction::Deliver <==> s2.accepted == s.accepted.push(m)
            &&& send_decision(s.in_use) == SendAction::Refuse <==> s2 == s
            &&& s2.in_use
        }),
{
    one_shot_invariant(events);
    let s = one_shot_run(events);
    let s2 = one_shot_step(s, OneShotEvent::SendClaim(t, m));
    if s.in_use {
        assert(s2.accepted.len() == s.accepted.len());
        assert(s2.accepted != s.accepted.push(m));
    } else {
        assert(s2 != s) by {
            assert(s2.in_use != s.in_use);
        }
    }
}

/// Of all the sends on one channel, however the threads interleave, at most one is
/// accepted: every claim after the first accepted one is refused.
pub proof fn one_shot_at_most_one_accepted<M>(events: Seq<OneShotEvent<M>>)
    ensures
        one_shot_run(events).accepted.len() <= 1,
        one_shot_run(events).accepted.len() == 1 <==> one_shot_run(events).in_use,
{
    one_shot_invariant(events);
}

/// `receive_action` takes the model's claim step of a receive: it takes the message
/// exactly when the model hands the receiver the slot, and after the claim, whatever it
/// found, the `ready` flag is false.
pub proof fn receive_action_takes_claim<M>(events: Seq<OneShotEvent<M>>, t: int)
    requires
        !one_shot_run(events).receivers.contains(t),
    ensures
        ({
            let s = one_shot_run(events);
            let s2 = one_shot_step(s, OneShotEvent::ReceiveClaim(t));
            &&& receive_decision(s.ready) == ReceiveAction::Take <==> s2.receivers.contains(t)
            &&& !s2.ready
        }),
{
}

/// `ready` is set exactly while a message was accepted, written into the slot, and not
/// yet taken by a receiver: a channel on which nothing was sent, or whose message was
/// received, is never ready.
pub proof fn one_shot_ready_means_waiting<M>(events: Seq<OneShotEvent<M>>)
    ensures
        one_shot_run(events).ready ==> {
            &&& one_shot_run(events).accepted.len() == 1
            &&& one_shot_run(events).slot == Some(one_shot_run(events).accepted[0])
            &&& one_shot_run(events).delivered.len() == 0
        },
        one_shot_run(events).accepted.len() == 0 ==> !one_shot_run(events).ready,
        one_shot_run(events).delivered.len() == 1 ==> !one_shot_run(events).ready,
{
    one_shot_invariant(events);
}

} // verus!
