use vstd::prelude::*;
use tokio::sync::broadcast::{Receiver, Sender};
use crate::pump::{Direction, Pump, PumpAction, PumpError, ReadOutcome};

verus! {

#[verifier::external_type_specification]
#[verifier::external_body]
#[verifier::reject_recursive_types(T)]
pub struct ExSender<T>(Sender<T>);

#[verifier::external_type_specification]
#[verifier::external_body]
#[verifier::reject_recursive_types(T)]
pub struct ExReceiver<T>(Receiver<T>);

/// Relies on tokio's broadcast::Sender::new: a sender with no receivers yet,
/// which panics on a capacity of zero or above `usize::MAX / 2`.
#[verifier::external_body]
fn new_signal_sender(capacity: usize) -> (r: Sender<()>)
    requires
        0 < capacity <= usize::MAX / 2,
{
    Sender::new(capacity)
}

/// That a receiver shares the channel of a sender and gets every value that
/// the sender sends after the receiver was made.
pub uninterp spec fn subscribed(r: Receiver<()>, s: Sender<()>) -> bool;

/// Relies on tokio's broadcast::Sender::subscribe: a receiver on the
/// sender's own channel, of every value sent after this call.
#[verifier::external_body]
fn subscribe_signal(sender: &Sender<()>) -> (r: Receiver<()>)
    ensures
        subscribed(r, *sender),
{
    sender.subscribe()
}

/// Relies on tokio's broadcast::Sender::send: it hands the value to the
/// receivers that exist, and fails only where there are none, which leaves
/// the channel as it was.
#[verifier::external_body]
fn send_signal(sender: &Sender<()>) {
    let _ = sender.send(());
}

/// The coupled pump pair of one session: one pump per direction and the
/// session's cancellation signal. When either pump ends, for any reason, the
/// signal fires, so that the other pump stops at its next read instead of
/// waiting on an idle peer.
pub struct Relay {
    to_upstream: Pump,
    to_client: Pump,
    cancel: Sender<()>,
    cancelled: bool,
}

impl Relay {
    /// The pump that relays bytes in the given direction.
    pub closed spec fn pump(&self, direction: Direction) -> Pump {
        match direction {
            Direction::ClientToUpstream => self.to_upstream,
            Direction::UpstreamToClient => self.to_client,
        }
    }

    /// The sending side of this session's cancellation signal.
    pub closed spec fn signal(&self) -> Sender<()> {
        self.cancel
    }

    /// Whether the cancellation signal has fired.
    pub closed spec fn cancelled(&self) -> bool {
        self.cancelled
    }

    pub open spec fn is_done(&self) -> bool {
        self.pump(Direction::ClientToUpstream).is_done() && self.pump(
            Direction::UpstreamToClient,
        ).is_done()
    }

    /// Both pumps are well formed and in place, and the signal has fired
    /// exactly when one of them has ended.
    pub open spec fn wf(&self) -> bool {
        &&& self.pump(Direction::ClientToUpstream).wf()
        &&& self.pump(Direction::ClientToUpstream).direction() == Direction::ClientToUpstream
        &&& self.pump(Direction::UpstreamToClient).wf()
        &&& self.pump(Direction::UpstreamToClient).direction() == Direction::UpstreamToClient
        &&& self.cancelled() <==> (self.pump(Direction::ClientToUpstream).is_done() || self.pump(
            Direction::UpstreamToClient,
        ).is_done())
    }

    /// The other direction of the same session.
    pub open spec fn sibling(direction: Direction) -> Direction {
        match direction {
            Direction::ClientToUpstream => Direction::UpstreamToClient,
            Direction::UpstreamToClient => Direction::ClientToUpstream,
        }
    }

    /// The step from `r` to `s` on a read outcome in `direction`: that pump
    /// takes it, its sibling stays as it was, and the signal fires when the
    /// pump ends.
    pub open spec fn read_step(
        r: Relay,
        direction: Direction,
        outcome: ReadOutcome,
        s: Relay,
        action: PumpAction,
    ) -> bool {
        &&& Pump::read_step(r.pump(direction), outcome, s.pump(direction), action)
        &&& s.pump(Self::sibling(direction)) == r.pump(Self::sibling(direction))
        &&& s.cancelled() == (r.cancelled() || action is Finish)
        &&& s.signal() == r.signal()
    }

    /// The step from `r` to `s` on the result of a write in `direction`.
    pub open spec fn write_step(
        r: Relay,
        direction: Direction,
        result: Result<(), String>,
        s: Relay,
        action: PumpAction,
    ) -> bool {
        &&& Pump::write_step(r.pump(direction), result, s.pump(direction), action)
        &&& s.pump(Self::sibling(direction)) == r.pump(Self::sibling(direction))
        &&& s.cancelled() == (r.cancelled() || action is Finish)
        &&& s.signal() == r.signal()
    }

    /// A pair whose two pumps have not read anything yet, with a signal that
    /// has not fired.
    pub fn new() -> (r: Relay)
        ensures
            r.wf(),
            !r.cancelled(),
            r.pump(Direction::ClientToUpstream).is_fresh(Direction::ClientToUpstream),
            r.pump(Direction::UpstreamToClient).is_fresh(Direction::UpstreamToClient),
    {
        let r = Relay {
            to_upstream: Pump::new(Direction::ClientToUpstream),
            to_client: Pump::new(Direction::UpstreamToClient),
            cancel: new_signal_sender(1),
            cancelled: false,
        };
        r
    }

    /// A new receiver of this session's own cancellation signal, for the
    /// driver of one pump.
    pub fn subscribe(&self) -> (r: Receiver<()>)
        ensures
            subscribed(r, self.signal()),
    {
        subscribe_signal(&self.cancel)
    }

    fn fire(&mut self)
        ensures
            final(self).cancelled(),
            final(self).to_upstream == old(self).to_upstream,
            final(self).to_client == old(self).to_client,
            final(self).cancel == old(self).cancel,
    {
        if !self.cancelled {
            send_signal(&self.cancel);
            self.cancelled = true;
        }
    }

    /// Takes the outcome of a read in the given direction and returns what
    /// that pump's driver does next; the signal fires when the pump ends.
    pub fn on_read(&mut self, direction: Direction, outcome: ReadOutcome) -> (action: PumpAction)
        requires
            old(self).wf(),
            old(self).pump(direction).phase() is Reading,
            outcome matches ReadOutcome::Bytes(b) ==> old(self).pump(direction).copied() + b@.len()
                <= usize::MAX,
        ensures
            final(self).wf(),
            Self::read_step(*old(self), direction, outcome, *final(self), action),
    {
        let action = match direction {
            Direction::ClientToUpstream => self.to_upstream.on_read(outcome),
            Direction::UpstreamToClient => self.to_client.on_read(outcome),
        };
        if let PumpAction::Finish = action {
            self.fire();
        }
        action
    }

    /// Takes the result of the pending write in the given direction and
    /// returns what that pump's driver does next; the signal fires when the
    /// pump ends.
    pub fn on_write(&mut self, direction: Direction, result: Result<(), String>) -> (action:
        PumpAction)
        requires
            old(self).wf(),
            old(self).pump(direction).phase() is Writing,
        ensures
            final(self).wf(),
            Self::write_step(*old(self), direction, result, *final(self), action),
    {
        let action = match direction {
            Direction::ClientToUpstream => self.to_upstream.on_write(result),
            Direction::UpstreamToClient => self.to_client.on_write(result),
        };
        if let PumpAction::Finish = action {
            self.fire();
        }
        action
    }

    /// The number of bytes copied so far in the given direction.
    pub fn bytes_copied(&self, direction: Direction) -> (r: usize)
        ensures
            r == self.pump(direction).copied(),
    {
        match direction {
            Direction::ClientToUpstream => self.to_upstream.bytes_copied(),
            Direction::UpstreamToClient => self.to_client.bytes_copied(),
        }
    }

    /// Whether the cancellation signal has fired.
    pub fn is_cancelled(&self) -> (r: bool)
        ensures
            r == self.cancelled(),
    {
        self.cancelled
    }

    /// Whether both pumps have ended: the session is over only then.
    pub fn is_finished(&self) -> (r: bool)
        ensures
            r == self.is_done(),
    {
        self.to_upstream.is_finished() && self.to_client.is_finished()
    }

    /// The outcomes of the two pumps of a finished pair: client to upstream
    /// first, then upstream to client.
    pub fn into_outcomes(self) -> (r: (Result<usize, PumpError>, Result<usize, PumpError>))
        requires
            self.is_done(),
        ensures
            self.pump(Direction::ClientToUpstream).phase() == crate::pump::Phase::Done(r.0),
            self.pump(Direction::UpstreamToClient).phase() == crate::pump::Phase::Done(r.1),
    {
        (self.to_upstream.into_outcome(), self.to_client.into_outcome())
    }
}

} // verus!
