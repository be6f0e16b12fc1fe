//! The policy that answers the service manager's control events.
use crate::shutdown::ShutdownProducer;
use vstd::prelude::*;

verus! {

/// A control event delivered by the service manager.
#[derive(Clone, Copy, Debug, PartialEq, Eq, Structural)]
pub enum ControlEvent {
    /// The manager asks whether the process is alive.
    Interrogate,
    /// The manager asks the service to stop.
    Stop,
    /// Any other control code.
    Other(u32),
}

/// The answer handed back to the manager for one event.
#[derive(Clone, Copy, Debug, PartialEq, Eq, Structural)]
pub enum ControlResponse {
    /// The event was handled.
    Acknowledged,
    /// The event is not handled here; the manager applies its own fallback.
    Unimplemented,
}

/// The answer owed for an event.
pub open spec fn response_of(event: ControlEvent) -> ControlResponse {
    match event {
        ControlEvent::Interrogate => ControlResponse::Acknowledged,
        ControlEvent::Stop => ControlResponse::Acknowledged,
        ControlEvent::Other(_) => ControlResponse::Unimplemented,
    }
}

/// Whether an event asks the body to shut down.
pub open spec fn requests_shutdown(event: ControlEvent) -> bool {
    event is Stop
}

/// Whether any event of a sequence asks the body to shut down.
pub open spec fn any_requests_shutdown(events: Seq<ControlEvent>) -> bool {
    exists|i: int| 0 <= i < events.len() && requests_shutdown(#[trigger] events[i])
}

/// Answers control events, forwarding a stop request to the service body.
pub struct EventHandler {
    close_sender: ShutdownProducer,
}

/// A handler bound to `close_sender`.
pub fn default_event_handler(close_sender: ShutdownProducer) -> (r: EventHandler)
    ensures
        r.producer() == close_sender,
{
    EventHandler { close_sender }
}

impl EventHandler {
    /// The producer this handler signals.
    pub closed spec fn producer(&self) -> ShutdownProducer {
        self.close_sender
    }

    /// Whether the bound producer has been signalled.
    pub open spec fn shutdown_forwarded(&self) -> bool {
        self.producer().is_signaled()
    }

    /// Answer one event. A stop request signals the bound producer; nothing
    /// else has a side effect.
    pub fn handle(&mut self, event: ControlEvent) -> (r: ControlResponse)
        ensures
            r == response_of(event),
            final(self).producer().channel() == old(self).producer().channel(),
            final(self).shutdown_forwarded() == (old(self).shutdown_forwarded()
                || requests_shutdown(event)),
    {
        match event {
            ControlEvent::Interrogate => ControlResponse::Acknowledged,
            ControlEvent::Stop => {
                self.close_sender.signal();
                ControlResponse::Acknowledged
            },
            ControlEvent::Other(_) => ControlResponse::Unimplemented,
        }
    }

    /// Answer a sequence of events in order.
    pub fn handle_all(&mut self, events: &Vec<ControlEvent>) -> (r: Vec<ControlResponse>)
        ensures
            r@.len() == events@.len(),
            forall|i: int| 0 <= i < events@.len() ==> r@[i] == response_of(#[trigger] events@[i]),
            final(self).producer().channel() == old(self).producer().channel(),
            final(self).shutdown_forwarded() == (old(self).shutdown_forwarded()
                || any_requests_shutdown(events@)),
    {
        let mut out: Vec<ControlResponse> = Vec::new();
        let mut k: usize = 0;
        while k < events.len()
            invariant
                k <= events@.len(),
                out@.len() == k,
                self.producer().channel() == old(self).producer().channel(),
                forall|i: int| 0 <= i < k ==> out@[i] == response_of(#[trigger] events@[i]),
                self.shutdown_forwarded() == (old(self).shutdown_forwarded()
                    || any_requests_shutdown(events@.take(k as int))),
            decreases events@.len() - k,
        {
            let ghost before = events@.take(k as int);
            let resp = self.handle(events[k]);
            out.push(resp);
            proof {
                let after = events@.take(k + 1);
                assert(after =~= before.push(events@[k as int]));
                if any_requests_shutdown(after) && !requests_shutdown(events@[k as int]) {
                    let i = choose|i: int| 0 <= i < after.len() && requests_shutdown(#[trigger] after[i]);
                    assert(before[i] == after[i]);
                }
                if any_requests_shutdown(before) {
                    let i = choose|i: int| 0 <= i < before.len() && requests_shutdown(#[trigger] before[i]);
                    assert(after[i] == before[i]);
                }
                if requests_shutdown(events@[k as int]) {
                    assert(requests_shutdown(after[k as int]));
                }
            }
            k = k + 1;
        }
        assert(events@.take(events@.len() as int) =~= events@);
        out
    }
}

/// Acknowledging is idempotent: any number of interrogations is answered with
/// `Acknowledged` each time and never asks the body to shut down.
pub proof fn interrogate_never_requests_shutdown(events: Seq<ControlEvent>)
    requires
        forall|i: int| 0 <= i < events.len() ==> #[trigger] events[i] == ControlEvent::Interrogate,
    ensures
        !any_requests_shutdown(events),
        forall|i: int| 0 <= i < events.len() ==> response_of(#[trigger] events[i])
            == ControlResponse::Acknowledged,
{
}

} // verus!
