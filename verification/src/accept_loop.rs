//! The accept-loop protocol.
//!
//! The loop repeatedly accepts an inbound connection, dials the
//! destination, and hands each established pair to an independent pipe,
//! never waiting for any pipe to finish. The surrounding program performs
//! the blocking work — accepting, dialing, spawning — and drives
//! [`AcceptLoop::step`] with the event it observed; the step decides the
//! next action and the next phase. Recoverable failures (a failed accept,
//! a failed dial) always return the loop to listening with nothing
//! spawned, so the service keeps serving later peers.

use vstd::prelude::*;

verus! {

/// Where the loop stands inside one iteration.
#[derive(Clone, Copy, Debug, PartialEq, Eq, Structural)]
pub enum LoopPhase {
    /// Waiting for the next inbound connection.
    Listening,
    /// An inbound connection is held; the destination is being dialed.
    Dialing,
}

/// What the surrounding program observed.
#[derive(Clone, Copy, Debug, PartialEq, Eq, Structural)]
pub enum LoopEvent {
    /// An inbound connection arrived.
    Accepted,
    /// The accept failed; no connection is held.
    AcceptFailed,
    /// The destination answered; an outbound connection is held too.
    Dialed,
    /// The dial failed; only the inbound connection is held.
    DialFailed,
}

/// What the surrounding program must do next.
#[derive(Clone, Copy, Debug, PartialEq, Eq, Structural)]
pub enum LoopAction {
    /// Wait for the next inbound connection.
    AwaitAccept,
    /// Dial the destination for the connection just accepted.
    DialDestination,
    /// Hand the established pair to a new, independent pipe, then wait
    /// for the next inbound connection without joining the pipe.
    SpawnPipe,
    /// Report the failed dial, drop the inbound connection, and wait for
    /// the next one.
    DropInbound,
}

/// The events that can actually be observed in a phase.
pub open spec fn event_allowed(phase: LoopPhase, event: LoopEvent) -> bool {
    match (phase, event) {
        (LoopPhase::Listening, LoopEvent::Accepted) => true,
        (LoopPhase::Listening, LoopEvent::AcceptFailed) => true,
        (LoopPhase::Dialing, LoopEvent::Dialed) => true,
        (LoopPhase::Dialing, LoopEvent::DialFailed) => true,
        _ => false,
    }
}

/// The phase after an event.
pub open spec fn phase_after(phase: LoopPhase, event: LoopEvent) -> LoopPhase {
    match (phase, event) {
        (LoopPhase::Listening, LoopEvent::Accepted) => LoopPhase::Dialing,
        (LoopPhase::Listening, LoopEvent::AcceptFailed) => LoopPhase::Listening,
        (LoopPhase::Dialing, LoopEvent::Dialed) => LoopPhase::Listening,
        (LoopPhase::Dialing, LoopEvent::DialFailed) => LoopPhase::Listening,
        _ => phase,
    }
}

/// How many pipes have been spawned after an event.
pub open spec fn served_after(served: nat, phase: LoopPhase, event: LoopEvent) -> nat {
    if phase == LoopPhase::Dialing && event == LoopEvent::Dialed {
        served + 1
    } else {
        served
    }
}

/// The action an event demands.
pub open spec fn action_for(phase: LoopPhase, event: LoopEvent) -> LoopAction {
    match (phase, event) {
        (LoopPhase::Listening, LoopEvent::Accepted) => LoopAction::DialDestination,
        (LoopPhase::Listening, LoopEvent::AcceptFailed) => LoopAction::AwaitAccept,
        (LoopPhase::Dialing, LoopEvent::Dialed) => LoopAction::SpawnPipe,
        (LoopPhase::Dialing, LoopEvent::DialFailed) => LoopAction::DropInbound,
        _ => LoopAction::AwaitAccept,
    }
}

/// The control state of the accept loop. The only state carried between
/// iterations is the phase; connections never outlive an iteration here.
pub struct AcceptLoop {
    pub phase: LoopPhase,
    /// How many connection pairs have been handed to pipes.
    pub served: Ghost<nat>,
}

impl AcceptLoop {
    /// A fresh loop, listening, with nothing served yet.
    pub fn new() -> (l: Self)
        ensures
            l.phase == LoopPhase::Listening,
            l.served@ == 0,
    {
        AcceptLoop { phase: LoopPhase::Listening, served: Ghost(0) }
    }

    /// Takes one observed event and decides the next action. Failures are
    /// never fatal: whatever the event, the loop ends up listening or
    /// dialing, ready for more work.
    pub fn step(&mut self, event: LoopEvent) -> (action: LoopAction)
        requires
            event_allowed(old(self).phase, event),
        ensures
            final(self).phase == phase_after(old(self).phase, event),
            final(self).served@ == served_after(old(self).served@, old(self).phase, event),
            action == action_for(old(self).phase, event),
    {
        let ghost served0 = self.served@;
        match (self.phase, event) {
            (LoopPhase::Listening, LoopEvent::Accepted) => {
                self.phase = LoopPhase::Dialing;
                LoopAction::DialDestination
            },
            (LoopPhase::Listening, LoopEvent::AcceptFailed) => LoopAction::AwaitAccept,
            (LoopPhase::Dialing, LoopEvent::Dialed) => {
                self.phase = LoopPhase::Listening;
                self.served = Ghost(served0 + 1);
                LoopAction::SpawnPipe
            },
            (LoopPhase::Dialing, LoopEvent::DialFailed) => {
                self.phase = LoopPhase::Listening;
                LoopAction::DropInbound
            },
            _ => LoopAction::AwaitAccept,
        }
    }
}

/// The phase after a whole run of events.
pub open spec fn run_phase(phase: LoopPhase, events: Seq<LoopEvent>) -> LoopPhase
    decreases events.len(),
{
    if events.len() == 0 {
        phase
    } else {
        run_phase(phase_after(phase, events.first()), events.drop_first())
    }
}

/// The served count after a whole run of events.
pub open spec fn run_served(served: nat, phase: LoopPhase, events: Seq<LoopEvent>) -> nat
    decreases events.len(),
{
    if events.len() == 0 {
        served
    } else {
        run_served(
            served_after(served, phase, events.first()),
            phase_after(phase, events.first()),
            events.drop_first(),
        )
    }
}

/// Every event of the run is allowed in the phase it meets.
pub open spec fn run_allowed(phase: LoopPhase, events: Seq<LoopEvent>) -> bool
    decreases events.len(),
{
    if events.len() == 0 {
        true
    } else {
        event_allowed(phase, events.first()) && run_allowed(
            phase_after(phase, events.first()),
            events.drop_first(),
        )
    }
}

/// A failed accept leaves no trace: the loop behaves under any later
/// events exactly as it would have without the failure — same phases,
/// same number of pipes spawned, same events accepted.
pub proof fn lemma_failed_accept_leaves_no_trace(served: nat, rest: Seq<LoopEvent>)
    ensures
        run_phase(LoopPhase::Listening, seq![LoopEvent::AcceptFailed] + rest) == run_phase(
            LoopPhase::Listening,
            rest,
        ),
        run_served(served, LoopPhase::Listening, seq![LoopEvent::AcceptFailed] + rest)
            == run_served(served, LoopPhase::Listening, rest),
        run_allowed(LoopPhase::Listening, seq![LoopEvent::AcceptFailed] + rest) == run_allowed(
            LoopPhase::Listening,
            rest,
        ),
{
    let evs = seq![LoopEvent::AcceptFailed] + rest;
    assert(evs.first() == LoopEvent::AcceptFailed);
    assert(evs.drop_first() =~= rest);
}

/// Liveness under destination failure: an accepted connection whose dial
/// fails is dropped, nothing is spawned for it, and the loop then behaves
/// under any later events exactly as it would have from a fresh listening
/// phase. In particular a later accept followed by a successful dial still
/// spawns its pipe.
pub proof fn lemma_failed_dial_leaves_no_trace(served: nat, rest: Seq<LoopEvent>)
    ensures
        run_phase(
            LoopPhase::Listening,
            seq![LoopEvent::Accepted, LoopEvent::DialFailed] + rest,
        ) == run_phase(LoopPhase::Listening, rest),
        run_served(
            served,
            LoopPhase::Listening,
            seq![LoopEvent::Accepted, LoopEvent::DialFailed] + rest,
        ) == run_served(served, LoopPhase::Listening, rest),
        run_allowed(
            LoopPhase::Listening,
            seq![LoopEvent::Accepted, LoopEvent::DialFailed] + rest,
        ) == run_allowed(LoopPhase::Listening, rest),
{
    let evs = seq![LoopEvent::Accepted, LoopEvent::DialFailed] + rest;
    let evs1 = seq![LoopEvent::DialFailed] + rest;
    assert(evs.first() == LoopEvent::Accepted);
    assert(evs.drop_first() =~= evs1);
    assert(evs1.first() == LoopEvent::DialFailed);
    assert(evs1.drop_first() =~= rest);
    assert(run_phase(LoopPhase::Listening, evs) == run_phase(LoopPhase::Dialing, evs1));
    assert(run_phase(LoopPhase::Dialing, evs1) == run_phase(LoopPhase::Listening, rest));
    assert(run_served(served, LoopPhase::Listening, evs) == run_served(
        served,
        LoopPhase::Dialing,
        evs1,
    ));
    assert(run_served(served, LoopPhase::Dialing, evs1) == run_served(
        served,
        LoopPhase::Listening,
        rest,
    ));
    assert(run_allowed(LoopPhase::Listening, evs) == run_allowed(LoopPhase::Dialing, evs1));
    assert(run_allowed(LoopPhase::Dialing, evs1) == run_allowed(LoopPhase::Listening, rest));
}

/// A successful iteration spawns exactly one pipe and returns to
/// listening; what the loop does afterwards is independent of it.
pub proof fn lemma_served_connection_spawns_one(served: nat, rest: Seq<LoopEvent>)
    ensures
        run_phase(
            LoopPhase::Listening,
            seq![LoopEvent::Accepted, LoopEvent::Dialed] + rest,
        ) == run_phase(LoopPhase::Listening, rest),
        run_served(
            served,
            LoopPhase::Listening,
            seq![LoopEvent::Accepted, LoopEvent::Dialed] + rest,
        ) == run_served(served + 1, LoopPhase::Listening, rest),
        run_allowed(
            LoopPhase::Listening,
            seq![LoopEvent::Accepted, LoopEvent::Dialed] + rest,
        ) == run_allowed(LoopPhase::Listening, rest),
{
    let evs = seq![LoopEvent::Accepted, LoopEvent::Dialed] + rest;
    let evs1 = seq![LoopEvent::Dialed] + rest;
    assert(evs.first() == LoopEvent::Accepted);
    assert(evs.drop_first() =~= evs1);
    assert(evs1.first() == LoopEvent::Dialed);
    assert(evs1.drop_first() =~= rest);
    assert(run_phase(LoopPhase::Listening, evs) == run_phase(LoopPhase::Dialing, evs1));
    assert(run_phase(LoopPhase::Dialing, evs1) == run_phase(LoopPhase::Listening, rest));
    assert(run_served(served, LoopPhase::Listening, evs) == run_served(
        served,
        LoopPhase::Dialing,
        evs1,
    ));
    assert(run_served(served, LoopPhase::Dialing, evs1) == run_served(
        served + 1,
        LoopPhase::Listening,
        rest,
    ));
    assert(run_allowed(LoopPhase::Listening, evs) == run_allowed(LoopPhase::Dialing, evs1));
    assert(run_allowed(LoopPhase::Dialing, evs1) == run_allowed(LoopPhase::Listening, rest));
}

} // verus!
