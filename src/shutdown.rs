//! A one-shot "stop now" notification between the context that detects
//! termination and the running service body.
use std::sync::mpsc::Receiver;
use std::sync::mpsc::Sender;
use std::time::Duration;
use vstd::prelude::*;

verus! {

#[verifier::external_type_specification]
#[verifier::external_body]
#[verifier::reject_recursive_types(T)]
pub struct ExSender<T>(Sender<T>);

#[verifier::external_type_specification]
#[verifier::external_body]
#[verifier::reject_recursive_types(T)]
pub struct ExReceiver<T>(Receiver<T>);

/// What a consumer observes when it waits for the shutdown signal.
#[derive(Clone, Copy, Debug, PartialEq, Eq, Structural)]
pub enum WaitOutcome {
    /// The producer signalled.
    Signaled,
    /// Nothing arrived within the timeout.
    TimedOut,
    /// The producer is gone without signalling; this counts as a signal.
    Closed,
}

impl WaitOutcome {
    /// A terminal outcome asks the body to stop, now and at every later wait.
    pub open spec fn is_terminal(self) -> bool {
        !(self is TimedOut)
    }
}

/// Relies on std::sync::mpsc::channel: a connected sender and receiver pair.
#[verifier::external_body]
fn unit_channel() -> (Sender<()>, Receiver<()>) {
    std::sync::mpsc::channel()
}

/// Relies on Sender::send; a failed send (receiver gone) is ignored.
#[verifier::external_body]
fn send_unit(tx: &Sender<()>) {
    let _ = tx.send(());
}

/// Relies on Receiver::recv_timeout: a message, a timeout, or a disconnected
/// sender. Which one comes depends on the other thread, so nothing is promised.
#[verifier::external_body]
fn receive_within(rx: &Receiver<()>, timeout: Duration) -> (r: WaitOutcome) {
    match rx.recv_timeout(timeout) {
        Ok(()) => WaitOutcome::Signaled,
        Err(std::sync::mpsc::RecvTimeoutError::Timeout) => WaitOutcome::TimedOut,
        Err(std::sync::mpsc::RecvTimeoutError::Disconnected) => WaitOutcome::Closed,
    }
}

/// The sending half: asks the body to stop.
pub struct ShutdownProducer {
    tx: Sender<()>,
    sent: Ghost<bool>,
}

/// The receiving half, held by the service body.
pub struct ShutdownConsumer {
    rx: Receiver<()>,
    seen: Option<WaitOutcome>,
}

/// Create a fresh producer / consumer pair; the consumer has observed nothing.
pub fn shutdown_channel() -> (r: (ShutdownProducer, ShutdownConsumer))
    ensures
        !r.0.is_signaled(),
        r.1.observed() is None,
{
    let (tx, rx) = unit_channel();
    (ShutdownProducer { tx, sent: Ghost(false) }, ShutdownConsumer { rx, seen: None })
}

impl ShutdownProducer {
    /// Whether this producer has asked the body to stop.
    pub closed spec fn is_signaled(&self) -> bool {
        self.sent@
    }

    /// The channel this producer sends on.
    pub closed spec fn channel(&self) -> Sender<()> {
        self.tx
    }

    /// Ask the body to stop. Signalling again, or after the consumer is gone,
    /// has no further effect and never fails.
    pub fn signal(&mut self)
        ensures
            final(self).is_signaled(),
            final(self).channel() == old(self).channel(),
    {
        send_unit(&self.tx);
        self.sent = Ghost(true);
    }
}

/// What one wait does to the observed outcome: a terminal outcome seen before
/// is returned again and kept; otherwise a terminal result is recorded and a
/// timeout leaves nothing recorded.
pub open spec fn wait_step(before: Option<WaitOutcome>, r: WaitOutcome, after: Option<WaitOutcome>) -> bool {
    match before {
        Some(seen) => r == seen && after == before,
        None => after == (if r.is_terminal() {
            Some(r)
        } else {
            None::<WaitOutcome>
        }),
    }
}

/// Once a consumer has observed `Signaled`, every later wait, however many,
/// returns `Signaled`: `states[i]` is what was observed before wait `i`, which
/// returned `results[i]`.
pub proof fn signaled_stays_signaled(states: Seq<Option<WaitOutcome>>, results: Seq<WaitOutcome>)
    requires
        states.len() == results.len() + 1,
        states[0] == Some(WaitOutcome::Signaled),
        forall|i: int| 0 <= i < results.len() ==> wait_step(states[i], #[trigger] results[i], states[i + 1]),
    ensures
        forall|i: int| 0 <= i < results.len() ==> #[trigger] results[i] == WaitOutcome::Signaled,
        states.last() == Some(WaitOutcome::Signaled),
    decreases results.len(),
{
    if results.len() > 0 {
        let n = results.len() - 1;
        signaled_stays_signaled(states.drop_last(), results.drop_last());
        assert(states.drop_last()[n] == states[n]);
        assert(wait_step(states[n], results[n], states[n + 1]));
        assert forall|i: int| 0 <= i < results.len() implies #[trigger] results[i] == WaitOutcome::Signaled by {
            if i < n {
                assert(results.drop_last()[i] == results[i]);
            }
        }
    }
}

impl ShutdownConsumer {
    /// The terminal outcome this consumer has observed, if any.
    pub closed spec fn observed(&self) -> Option<WaitOutcome> {
        self.seen
    }

    /// Whether a terminal outcome has been observed.
    pub fn is_stopped(&self) -> (r: bool)
        ensures
            r == self.observed() is Some,
    {
        self.seen.is_some()
    }

    /// Wait up to `timeout` for the signal. Once a terminal outcome has been
    /// observed, every later call returns that same outcome at once.
    pub fn wait(&mut self, timeout: Duration) -> (r: WaitOutcome)
        ensures
            wait_step(old(self).observed(), r, final(self).observed()),
    {
        match self.seen {
            Some(outcome) => outcome,
            None => {
                let outcome = receive_within(&self.rx, timeout);
                if outcome != WaitOutcome::TimedOut {
                    self.seen = Some(outcome);
                }
                outcome
            },
        }
    }
}

} // verus!
