//! Who waits for which answer.

use vstd::prelude::*;

use std::collections::BTreeMap;

use crate::mpv::response::{Event, Message, MpvResult};

verus! {

/// What is to be done with a message from the player.
#[derive(Debug, PartialEq, Eq)]
pub enum Delivery<L> {
    /// The result is for this listener.
    Answer { listener: L, result: MpvResult },
    /// It answers a command that nobody waits for.
    NoListener,
    /// The event is for everybody.
    Broadcast(Event),
}

/// The listeners that wait for an answer. The view is the listener for each number.
pub struct Listeners<L> {
    listeners: BTreeMap<i64, L>,
}

impl<L> View for Listeners<L> {
    type V = Map<i64, L>;

    closed spec fn view(&self) -> Map<i64, L> {
        self.listeners@
    }
}

/// What is to be done with a message, where these are the listeners.
pub open spec fn delivery<L>(listeners: Map<i64, L>, message: Message) -> Delivery<L> {
    match message {
        Message::Event(event) => Delivery::Broadcast(event),
        Message::Response { request_id, result } => if listeners.contains_key(request_id) {
            Delivery::Answer { listener: listeners[request_id], result }
        } else {
            Delivery::NoListener
        },
    }
}

/// The listeners that still wait after a message.
pub open spec fn still_waiting<L>(listeners: Map<i64, L>, message: Message) -> Map<i64, L> {
    match message {
        Message::Event(_) => listeners,
        Message::Response { request_id, .. } => listeners.remove(request_id),
    }
}

impl<L> Listeners<L> {
    /// Nobody waits.
    pub fn new() -> (r: Listeners<L>)
        ensures
            r@ == Map::<i64, L>::empty(),
    {
        Listeners { listeners: BTreeMap::new() }
    }

    /// Lets `listener` wait for the answer with this number, in place of another
    /// that may have waited for it.
    pub fn register(&mut self, request_id: i64, listener: L)
        ensures
            final(self)@ == old(self)@.insert(request_id, listener),
    {
        let _ = self.listeners.insert(request_id, listener);
    }

    /// What is to be done with a message. A listener that gets its answer waits no
    /// longer.
    pub fn dispatch(&mut self, message: Message) -> (r: Delivery<L>)
        ensures
            r == delivery(old(self)@, message),
            final(self)@ == still_waiting(old(self)@, message),
    {
        match message {
            Message::Event(event) => Delivery::Broadcast(event),
            Message::Response { request_id, result } => {
                match self.listeners.remove(&request_id) {
                    Some(listener) => Delivery::Answer { listener, result },
                    None => {
                        assert(still_waiting(old(self)@, message) =~= old(self)@);
                        Delivery::NoListener
                    },
                }
            },
        }
    }
}

/// A listener gets the answer that it waits for, once: a second answer with the same
/// number finds nobody.
pub proof fn law_answered_once<L>(
    listeners: Map<i64, L>,
    request_id: i64,
    listener: L,
    first: MpvResult,
    second: MpvResult,
)
    ensures
        ({
            let waiting = listeners.insert(request_id, listener);
            let answer = Message::Response { request_id, result: first };
            let again = Message::Response { request_id, result: second };
            &&& delivery(waiting, answer) == (Delivery::Answer { listener, result: first })
            &&& delivery(still_waiting(waiting, answer), again) == Delivery::<L>::NoListener
        }),
{
}

/// A listener waits on while events and answers with other numbers come in, and while
/// others begin to wait for other numbers.
pub proof fn law_waits_for_own_answer<L>(
    listeners: Map<i64, L>,
    request_id: i64,
    message: Message,
    other_id: i64,
    other: L,
)
    requires
        listeners.contains_key(request_id),
        message matches Message::Response { request_id: id, .. } ==> id != request_id,
        other_id != request_id,
    ensures
        still_waiting(listeners, message).contains_key(request_id),
        still_waiting(listeners, message)[request_id] == listeners[request_id],
        listeners.insert(other_id, other).contains_key(request_id),
        listeners.insert(other_id, other)[request_id] == listeners[request_id],
{
}

/// Who waits for an answer gets exactly that, once: a second answer with the same number
/// finds nobody, and whoever waits for another number waits on.
pub proof fn law_answer_reaches_its_listener<L>(
    listeners: &mut Listeners<L>,
    request_id: i64,
    listener: L,
    waiting: &mut Listeners<L>,
    result: MpvResult,
    first: Delivery<L>,
    answered: &mut Listeners<L>,
    again: MpvResult,
    second: Delivery<L>,
)
    requires
        call_ensures(Listeners::register, (listeners, request_id, listener), ()),
        *old(waiting) == *final(listeners),
        call_ensures(
            Listeners::dispatch,
            (waiting, Message::Response { request_id, result }),
            first,
        ),
        *old(answered) == *final(waiting),
        call_ensures(
            Listeners::dispatch,
            (answered, Message::Response { request_id, result: again }),
            second,
        ),
    ensures
        first == (Delivery::Answer { listener, result }),
        second == Delivery::<L>::NoListener,
        forall|other: i64|
            other != request_id ==> (#[trigger] final(answered)@.contains_key(other) <==> old(
                listeners,
            )@.contains_key(other)),
        forall|other: i64|
            other != request_id && old(listeners)@.contains_key(other)
                ==> #[trigger] final(answered)@[other] == old(listeners)@[other],
{
}

/// Nobody waits at first: no answer finds a listener that was not registered. An event is
/// for everybody, and whoever waits waits on.
pub proof fn law_events_and_strangers<L>(
    fresh: Listeners<L>,
    listeners: &mut Listeners<L>,
    message: Message,
    r: Delivery<L>,
)
    requires
        call_ensures(Listeners::new, (), fresh),
        call_ensures(Listeners::dispatch, (listeners, message), r),
    ensures
        message matches Message::Event(event) ==> r == Delivery::<L>::Broadcast(event),
        message is Event ==> final(listeners)@ == old(listeners)@,
        message matches Message::Response { request_id, .. } ==> (*old(listeners) == fresh || !old(
            listeners,
        )@.contains_key(request_id) ==> r == Delivery::<L>::NoListener),
{
}

} // verus!
