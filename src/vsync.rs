//! The decisions of the vertical-blank pump: a thread that waits on the
//! vertical blank of its assigned display and notifies the consumer after
//! each one, and that a single-slot mailbox retargets (to another display, or
//! to none).
//!
//! The thread itself lives with the caller; it performs each
//! [`PumpCommand`] and hands the outcome back as a [`PumpEvent`].

use vstd::prelude::*;

verus! {

/// What the pump thread is to do next.
#[derive(Clone, Copy, Debug, PartialEq, Eq, Structural)]
pub enum PumpCommand {
    /// Nothing is assigned: block on the mailbox until an assignment arrives.
    AwaitAssignment,
    /// Drain the mailbox without blocking.
    CheckMailbox,
    /// Block on the current display's vertical blank, then try (without
    /// blocking; a full queue drops the notification) to notify the consumer.
    WaitAndNotify,
    /// Stop the thread.
    Exit,
}

/// The outcome of a [`PumpCommand`].
#[derive(Debug)]
pub enum PumpEvent<D> {
    /// The mailbox held a new assignment (possibly none).
    Assigned(Option<D>),
    /// The mailbox was empty.
    Empty,
    /// The mailbox's sender is gone.
    MailboxClosed,
    /// A vertical blank was waited for and the notification attempted;
    /// `consumer_closed` says whether the consumer is gone.
    Notified { consumer_closed: bool },
}

/// The pump: the display it is assigned to, if any.
#[derive(Debug)]
pub struct VsyncPump<D> {
    pub current: Option<D>,
}

/// How the pump reads its mailbox when it has nothing else to do: blocking
/// when idle, without blocking when a display is assigned.
pub open spec fn mailbox_command<D>(current: Option<D>) -> PumpCommand {
    if current is Some {
        PumpCommand::CheckMailbox
    } else {
        PumpCommand::AwaitAssignment
    }
}

/// The transition table of the pump.
///
/// A new assignment is adopted at once, and the wait of that iteration is
/// skipped; an empty mailbox lets the pump wait on its display.
pub open spec fn pump_next<D>(current: Option<D>, e: PumpEvent<D>) -> (Option<D>, PumpCommand) {
    match e {
        PumpEvent::Assigned(next) => (next, mailbox_command(next)),
        PumpEvent::MailboxClosed => (current, PumpCommand::Exit),
        PumpEvent::Empty => (
            current,
            if current is Some {
                PumpCommand::WaitAndNotify
            } else {
                PumpCommand::AwaitAssignment
            },
        ),
        PumpEvent::Notified { consumer_closed } => (
            current,
            if consumer_closed {
                PumpCommand::Exit
            } else {
                mailbox_command(current)
            },
        ),
    }
}

/// The commands that a run of events gives, starting from an assignment.
pub open spec fn pump_run<D>(current: Option<D>, events: Seq<PumpEvent<D>>) -> Seq<PumpCommand>
    decreases events.len(),
{
    if events.len() == 0 {
        Seq::empty()
    } else {
        let (next, cmd) = pump_next(current, events[0]);
        seq![cmd] + pump_run(next, events.drop_first())
    }
}

impl<D> VsyncPump<D> {
    pub fn new(initial: Option<D>) -> (r: VsyncPump<D>)
        ensures
            r.current == initial,
    {
        VsyncPump { current: initial }
    }

    /// The first command of the thread: read the mailbox.
    pub fn start(&self) -> (r: PumpCommand)
        ensures
            r == mailbox_command(self.current),
    {
        if self.current.is_some() {
            PumpCommand::CheckMailbox
        } else {
            PumpCommand::AwaitAssignment
        }
    }

    /// The display to wait on, if any.
    pub fn current(&self) -> (r: Option<&D>)
        ensures
            r == match self.current {
                Some(d) => Some(&d),
                None => None::<&D>,
            },
    {
        match &self.current {
            Some(d) => Some(d),
            None => None,
        }
    }

    /// Advances the pump by one event.
    pub fn step(&mut self, e: PumpEvent<D>) -> (r: PumpCommand)
        ensures
            (final(self).current, r) == pump_next(old(self).current, e),
    {
        match e {
            PumpEvent::Assigned(next) => {
                self.current = next;
                self.start()
            },
            PumpEvent::MailboxClosed => PumpCommand::Exit,
            PumpEvent::Empty => {
                if self.current.is_some() {
                    PumpCommand::WaitAndNotify
                } else {
                    PumpCommand::AwaitAssignment
                }
            },
            PumpEvent::Notified { consumer_closed } => {
                if consumer_closed {
                    PumpCommand::Exit
                } else {
                    self.start()
                }
            },
        }
    }
}

/// Whether an event assigns some display.
pub open spec fn assigns_display<D>(e: PumpEvent<D>) -> bool {
    e matches PumpEvent::Assigned(Some(_))
}

/// An idle pump stays idle, and never waits on a vertical blank, until some
/// display is assigned to it.
pub proof fn lemma_idle_pump_never_waits<D>(events: Seq<PumpEvent<D>>)
    requires
        forall|i: int| 0 <= i < events.len() ==> !assigns_display(#[trigger] events[i]),
    ensures
        forall|i: int|
            0 <= i < pump_run(None::<D>, events).len() ==> #[trigger] pump_run(None::<D>, events)[i]
                != PumpCommand::WaitAndNotify,
        pump_run(None::<D>, events).len() == events.len(),
    decreases events.len(),
{
    if events.len() > 0 {
        let rest = events.drop_first();
        assert forall|i: int| 0 <= i < rest.len() implies !assigns_display(#[trigger] rest[i]) by {
            assert(rest[i] == events[i + 1]);
        }
        lemma_idle_pump_never_waits(rest);
        let (next, cmd) = pump_next(None::<D>, events[0]);
        assert(next is None);
        assert(cmd != PumpCommand::WaitAndNotify);
        let out = pump_run(None::<D>, events);
        assert(out == seq![cmd] + pump_run(None::<D>, rest));
        assert forall|i: int| 0 <= i < out.len() implies #[trigger] out[i]
            != PumpCommand::WaitAndNotify by {
            if i > 0 {
                assert(out[i] == pump_run(None::<D>, rest)[i - 1]);
            }
        }
    }
}

/// Once the mailbox delivers a reassignment to no display, the pump waits on
/// the vertical blank of its old display no more: it issues no wait at all
/// until another display is assigned.
pub proof fn lemma_unassign_stops_waits<D>(old_display: D, later: Seq<PumpEvent<D>>)
    requires
        forall|i: int| 0 <= i < later.len() ==> !assigns_display(#[trigger] later[i]),
    ensures
        pump_next(Some(old_display), PumpEvent::Assigned(None)) == (
            None::<D>,
            PumpCommand::AwaitAssignment,
        ),
        forall|i: int|
            0 <= i < pump_run(Some(old_display), seq![PumpEvent::Assigned(None)] + later).len()
                ==> #[trigger] pump_run(Some(old_display), seq![PumpEvent::Assigned(None)] + later)[i]
                != PumpCommand::WaitAndNotify,
{
    let events = seq![PumpEvent::Assigned(None)] + later;
    assert(events.drop_first() =~= later);
    assert(events[0] == PumpEvent::<D>::Assigned(None));
    lemma_idle_pump_never_waits(later);
    let out = pump_run(Some(old_display), events);
    assert(out == seq![PumpCommand::AwaitAssignment] + pump_run(None::<D>, later));
    assert forall|i: int| 0 <= i < out.len() implies #[trigger] out[i]
        != PumpCommand::WaitAndNotify by {
        if i > 0 {
            assert(out[i] == pump_run(None::<D>, later)[i - 1]);
        }
    }
}

} // verus!
