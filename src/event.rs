//! The decisions of the event producer, which races a tick timer against terminal input
//! and hands one ordered stream of events to a single consumer.
use vstd::prelude::*;

verus! {

/// An event handed to the consumer.
#[derive(Clone, Copy, Debug, PartialEq, Eq)]
pub enum Event<I> {
    Input(I),
    Tick,
}

/// What woke the producer.
#[derive(Debug)]
pub enum Wake<I> {
    /// The tick timer fired.
    TimerFired,
    /// A key was pressed.
    Key(I),
    /// Another terminal event arrived (a resize, a mouse or focus event).
    OtherInput,
    /// A send failed: the consumer is gone.
    ConsumerGone,
}

/// What the producer does next.
#[derive(Debug)]
pub enum Action<I> {
    /// Send `event` to the consumer. With `restart_timer` a fresh timer is armed for the tick
    /// rate; with `pause` the producer yields briefly before it waits again.
    Send { event: Event<I>, restart_timer: bool, pause: bool },
    /// Wait again, on the same timer.
    Wait,
    /// End the producer.
    Stop,
}

/// The producer's state: it runs until the consumer is gone.
#[derive(Clone, Copy, Debug)]
pub struct Producer {
    pub stopped: bool,
}

/// How a producer in the state `stopped` reacts to `w`.
pub open spec fn reaction<I>(stopped: bool, w: Wake<I>) -> Action<I> {
    if stopped {
        Action::Stop
    } else {
        match w {
            Wake::TimerFired => Action::Send { event: Event::Tick, restart_timer: true, pause: false },
            Wake::Key(k) => Action::Send { event: Event::Input(k), restart_timer: true, pause: true },
            Wake::OtherInput => Action::Wait,
            Wake::ConsumerGone => Action::Stop,
        }
    }
}

/// Whether the producer is stopped after `w`.
pub open spec fn stopped_after<I>(stopped: bool, w: Wake<I>) -> bool {
    stopped || w is ConsumerGone
}

/// Whether a fresh producer is stopped after handling `ws` in order.
pub open spec fn stopped_after_all<I>(ws: Seq<Wake<I>>) -> bool
    decreases ws.len(),
{
    if ws.len() == 0 {
        false
    } else {
        stopped_after(stopped_after_all(ws.drop_last()), ws.last())
    }
}

/// The events a fresh producer sends while it handles `ws` in order.
pub open spec fn sent<I>(ws: Seq<Wake<I>>) -> Seq<Event<I>>
    decreases ws.len(),
{
    if ws.len() == 0 {
        Seq::empty()
    } else {
        match reaction(stopped_after_all(ws.drop_last()), ws.last()) {
            Action::Send { event, .. } => sent(ws.drop_last()) + seq![event],
            _ => sent(ws.drop_last()),
        }
    }
}

/// The event that a wake stands for, if any: ticks and key presses.
pub open spec fn event_of<I>(w: Wake<I>) -> Option<Event<I>> {
    match w {
        Wake::TimerFired => Some(Event::Tick),
        Wake::Key(k) => Some(Event::Input(k)),
        _ => None,
    }
}

impl Producer {
    pub fn new() -> (r: Producer)
        ensures
            !r.stopped,
    {
        Producer { stopped: false }
    }

    /// Decides what to do about `wake`.
    pub fn step<I>(&mut self, wake: Wake<I>) -> (r: Action<I>)
        ensures
            r == reaction(old(self).stopped, wake),
            final(self).stopped == stopped_after(old(self).stopped, wake),
    {
        if self.stopped {
            return Action::Stop;
        }
        match wake {
            Wake::TimerFired => Action::Send { event: Event::Tick, restart_timer: true, pause: false },
            Wake::Key(k) => Action::Send { event: Event::Input(k), restart_timer: true, pause: true },
            Wake::OtherInput => Action::Wait,
            Wake::ConsumerGone => {
                self.stopped = true;
                Action::Stop
            },
        }
    }
}

/// While the consumer is there, the producer sends exactly the ticks and key presses it
/// observes, in the order it observes them.
pub proof fn law_sent_in_order<I>(ws: Seq<Wake<I>>)
    requires
        forall|i: int| 0 <= i < ws.len() ==> !(ws[i] is ConsumerGone),
    ensures
        !stopped_after_all(ws),
        sent(ws) == ws.filter_map(|w: Wake<I>| event_of(w)),
    decreases ws.len(),
{
    if ws.len() > 0 {
        law_sent_in_order(ws.drop_last());
    }
}

/// A terminal event other than a key press sends nothing and keeps the pending timer;
/// wherever such events fall among the others, the consumer sees the same stream.
pub proof fn law_other_input_unseen<I>(stopped: bool, before: Seq<Wake<I>>, after: Seq<Wake<I>>)
    ensures
        !(reaction(stopped, Wake::<I>::OtherInput) is Send),
        stopped_after(stopped, Wake::<I>::OtherInput) == stopped,
        sent(before.push(Wake::OtherInput) + after) == sent(before + after),
        stopped_after_all(before.push(Wake::OtherInput) + after) == stopped_after_all(
            before + after,
        ),
    decreases after.len(),
{
    if after.len() == 0 {
        assert(before.push(Wake::OtherInput) + after =~= before.push(Wake::OtherInput));
        assert(before + after =~= before);
        assert(before.push(Wake::OtherInput).drop_last() =~= before);
    } else {
        let a2 = after.drop_last();
        law_other_input_unseen(stopped, before, a2);
        assert((before.push(Wake::OtherInput) + after).drop_last() =~= before.push(
            Wake::OtherInput,
        ) + a2);
        assert((before + after).drop_last() =~= before + a2);
        assert((before.push(Wake::OtherInput) + after).last() == after.last());
        assert((before + after).last() == after.last());
    }
}

} // verus!
