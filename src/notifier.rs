//! The notifier: a single consumer that takes status records in the order
//! they arrive and asks the sink to deliver one message for each.
//!
//! The caller owns the channel and the sink. It feeds each happening to
//! `Notifier::step` as an event and performs the action that comes back.
use vstd::prelude::*;
use crate::service::{message_of, StatusRecord};

verus! {

/// Where the notifier stands.
#[derive(PartialEq, Eq, Structural, Clone, Copy, Debug)]
pub enum NotifierState {
    /// Created, not yet started.
    Idle,
    /// Waiting for the next record from the channel.
    Receiving,
    /// One message handed to the sink, waiting for the outcome.
    Delivering,
    /// The channel is closed and drained; nothing more will happen.
    Done,
}

/// What happened, as reported by the caller.
#[derive(Debug)]
pub enum NotifierEvent {
    /// The pipeline starts the notifier.
    Start,
    /// The channel handed over the next record.
    Received(StatusRecord),
    /// The channel is closed and empty.
    Closed,
    /// The sink delivered the last message.
    Delivered,
    /// The sink failed to deliver the last message.
    DeliveryFailed,
}

/// What the caller must do next.
#[derive(Debug)]
pub enum NotifierAction {
    /// Wait for the next record, or for the channel to close.
    Receive,
    /// Ask the sink to deliver this message.
    Deliver(String),
    /// Stop: the pipeline is complete.
    Finish,
}

/// The mathematical content of a `NotifierAction`.
pub enum ActionView {
    Receive,
    Deliver(Seq<char>),
    Finish,
}

impl View for NotifierAction {
    type V = ActionView;

    open spec fn view(&self) -> ActionView {
        match self {
            NotifierAction::Receive => ActionView::Receive,
            NotifierAction::Deliver(m) => ActionView::Deliver(m@),
            NotifierAction::Finish => ActionView::Finish,
        }
    }
}

/// Whether `ev` can happen in state `st`.
pub open spec fn accepts(st: NotifierState, ev: NotifierEvent) -> bool {
    match st {
        NotifierState::Idle => ev is Start,
        NotifierState::Receiving => ev is Received || ev is Closed,
        NotifierState::Delivering => ev is Delivered || ev is DeliveryFailed,
        NotifierState::Done => false,
    }
}

/// The state after an accepted event. A failed delivery goes back to
/// receiving, exactly as a successful one does.
pub open spec fn next_state(ev: NotifierEvent) -> NotifierState {
    match ev {
        NotifierEvent::Start => NotifierState::Receiving,
        NotifierEvent::Received(_) => NotifierState::Delivering,
        NotifierEvent::Closed => NotifierState::Done,
        NotifierEvent::Delivered => NotifierState::Receiving,
        NotifierEvent::DeliveryFailed => NotifierState::Receiving,
    }
}

/// The action after an accepted event: each received record is announced
/// at once, so messages go out in the order the records arrived.
pub open spec fn next_action(ev: NotifierEvent) -> ActionView {
    match ev {
        NotifierEvent::Received(r) => ActionView::Deliver(message_of(r@)),
        NotifierEvent::Closed => ActionView::Finish,
        _ => ActionView::Receive,
    }
}

/// The state after feeding `events` in order from `st`, or `None` when one of
/// them cannot happen where it comes.
pub open spec fn run(st: NotifierState, events: Seq<NotifierEvent>) -> Option<NotifierState>
    decreases events.len(),
{
    if events.len() == 0 {
        Some(st)
    } else if accepts(st, events[0]) {
        run(next_state(events[0]), events.drop_first())
    } else {
        None
    }
}

/// The single consumer of status records.
pub struct Notifier {
    state: NotifierState,
}

impl Notifier {
    /// The current state, for contracts.
    pub closed spec fn state_spec(&self) -> NotifierState {
        self.state
    }

    /// A notifier that has not started.
    pub fn new() -> (r: Notifier)
        ensures
            r.state_spec() == NotifierState::Idle,
    {
        Notifier { state: NotifierState::Idle }
    }

    pub fn state(&self) -> (r: NotifierState)
        ensures
            r == self.state_spec(),
    {
        self.state
    }

    /// Whether `ev` can happen now.
    pub fn accepts(&self, ev: &NotifierEvent) -> (r: bool)
        ensures
            r == accepts(self.state_spec(), *ev),
    {
        match self.state {
            NotifierState::Idle => matches!(ev, NotifierEvent::Start),
            NotifierState::Receiving => matches!(ev, NotifierEvent::Received(_) | NotifierEvent::Closed),
            NotifierState::Delivering => matches!(
                ev,
                NotifierEvent::Delivered | NotifierEvent::DeliveryFailed
            ),
            NotifierState::Done => false,
        }
    }

    /// Takes one event and says what to do next.
    pub fn step(&mut self, ev: NotifierEvent) -> (r: NotifierAction)
        requires
            accepts(old(self).state_spec(), ev),
        ensures
            final(self).state_spec() == next_state(ev),
            r@ == next_action(ev),
    {
        match ev {
            NotifierEvent::Start => {
                self.state = NotifierState::Receiving;
                NotifierAction::Receive
            },
            NotifierEvent::Received(record) => {
                self.state = NotifierState::Delivering;
                NotifierAction::Deliver(record.message())
            },
            NotifierEvent::Closed => {
                self.state = NotifierState::Done;
                NotifierAction::Finish
            },
            NotifierEvent::Delivered => {
                self.state = NotifierState::Receiving;
                NotifierAction::Receive
            },
            NotifierEvent::DeliveryFailed => {
                self.state = NotifierState::Receiving;
                NotifierAction::Receive
            },
        }
    }
}

/// The events that end a notifier in state `st` once every checker has
/// finished and the channel is closed: settle the pending delivery, whatever
/// its outcome `delivered`, or start; then see the channel closed.
pub open spec fn closing_events(st: NotifierState, delivered: bool) -> Seq<NotifierEvent> {
    match st {
        NotifierState::Idle => seq![NotifierEvent::Start, NotifierEvent::Closed],
        NotifierState::Receiving => seq![NotifierEvent::Closed],
        NotifierState::Delivering => seq![
            if delivered {
                NotifierEvent::Delivered
            } else {
                NotifierEvent::DeliveryFailed
            },
            NotifierEvent::Closed,
        ],
        NotifierState::Done => seq![],
    }
}

/// Once the channel is closed the notifier reaches `Done` within two events
/// from any state, also when it never received a record, and it asks for
/// nothing after `Done`.
pub proof fn lemma_closed_channel_terminates(st: NotifierState, delivered: bool)
    ensures
        closing_events(st, delivered).len() <= 2,
        run(st, closing_events(st, delivered)) == Some(NotifierState::Done),
        run(NotifierState::Idle, seq![NotifierEvent::Start, NotifierEvent::Closed]) == Some(
            NotifierState::Done,
        ),
        forall|ev: NotifierEvent| !accepts(NotifierState::Done, ev),
{
    reveal_with_fuel(run, 3);
    let evs = closing_events(st, delivered);
    if evs.len() == 2 {
        assert(evs.drop_first() =~= seq![NotifierEvent::Closed]);
        assert(evs.drop_first().drop_first() =~= Seq::<NotifierEvent>::empty());
    } else if evs.len() == 1 {
        assert(evs.drop_first() =~= Seq::<NotifierEvent>::empty());
    }
    let idle = seq![NotifierEvent::Start, NotifierEvent::Closed];
    assert(idle.drop_first() =~= seq![NotifierEvent::Closed]);
    assert(idle.drop_first().drop_first() =~= Seq::<NotifierEvent>::empty());
}

/// A failed delivery does not stop the notifier: it goes back to receiving,
/// and the next record that arrives is handed to the sink all the same.
pub proof fn lemma_failure_keeps_delivering(next: StatusRecord)
    ensures
        accepts(NotifierState::Delivering, NotifierEvent::DeliveryFailed),
        next_state(NotifierEvent::DeliveryFailed) == NotifierState::Receiving,
        accepts(NotifierState::Receiving, NotifierEvent::Received(next)),
        next_action(NotifierEvent::Received(next)) == ActionView::Deliver(message_of(next@)),
        next_state(NotifierEvent::DeliveryFailed) == next_state(NotifierEvent::Delivered),
{
}

} // verus!
