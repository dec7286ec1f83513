use vstd::prelude::*;

verus! {

/// How many bytes a pump reads at a time.
pub const BUF_SIZE: usize = 1024;

/// The two directions in which a session relays bytes.
#[derive(Clone, Copy, Debug, PartialEq, Eq, Structural)]
pub enum Direction {
    ClientToUpstream,
    UpstreamToClient,
}

/// The kind of a failed socket operation, as far as the relay tells kinds apart.
#[derive(Clone, Copy, Debug, PartialEq, Eq, Structural)]
pub enum FailureKind {
    ConnectionReset,
    ConnectionAborted,
    Other,
}

/// What a pump's read step came to: bytes (none at end of stream), a failed
/// read with its kind and description, or the session's cancellation signal,
/// which won the race against the read.
pub enum ReadOutcome {
    Bytes(Vec<u8>),
    Failed(FailureKind, String),
    Cancelled,
}

/// Why a pump ended in failure, with the description of the socket error.
#[derive(Debug)]
pub enum PumpError {
    Read(String),
    Write(String),
}

/// What the driver of a pump has to do next: read from the read side (racing
/// the cancellation signal), write all of the given bytes to the write side,
/// or fire the cancellation signal and stop.
pub enum PumpAction {
    Read,
    Write(Vec<u8>),
    Finish,
}

/// Where a pump stands: waiting for a read, waiting for a write of the given
/// number of bytes to complete, or ended with its outcome.
#[derive(Debug)]
pub enum Phase {
    Reading,
    Writing(usize),
    Done(Result<usize, PumpError>),
}

/// A peer that resets or aborts the connection ends the stream as an end of
/// stream would.
pub open spec fn is_benign(kind: FailureKind) -> bool {
    kind == FailureKind::ConnectionReset || kind == FailureKind::ConnectionAborted
}

/// One direction of a session: a loop that reads from one socket and writes
/// everything it read to the other, driven step by step.
pub struct Pump {
    direction: Direction,
    copied: usize,
    phase: Phase,
    received: Ghost<Seq<u8>>,
    delivered: Ghost<Seq<u8>>,
}

impl Pump {
    pub closed spec fn direction(&self) -> Direction {
        self.direction
    }

    /// The number of bytes written to the write side so far.
    pub closed spec fn copied(&self) -> nat {
        self.copied as nat
    }

    pub closed spec fn phase(&self) -> Phase {
        self.phase
    }

    /// Every byte read from the read side so far, in order.
    pub closed spec fn received(&self) -> Seq<u8> {
        self.received@
    }

    /// Every byte whose write to the write side has completed, in order.
    pub closed spec fn delivered(&self) -> Seq<u8> {
        self.delivered@
    }

    pub open spec fn is_done(&self) -> bool {
        self.phase() is Done
    }

    /// What was written is always what was read, in order, and lags behind
    /// it only by the chunk being written or one a failed write dropped.
    pub open spec fn wf(&self) -> bool {
        &&& self.copied() <= usize::MAX
        &&& self.delivered().len() == self.copied()
        &&& self.delivered().len() <= self.received().len()
        &&& self.delivered() == self.received().subrange(0, self.delivered().len() as int)
        &&& match self.phase() {
            Phase::Reading => self.received().len() == self.delivered().len(),
            Phase::Writing(n) => {
                &&& n > 0
                &&& self.copied() + n <= usize::MAX
                &&& self.received().len() == self.delivered().len() + n
            },
            Phase::Done(Ok(c)) => c == self.copied() && self.received().len()
                == self.delivered().len(),
            Phase::Done(Err(_)) => true,
        }
    }

    /// The pump ends well, having written everything that it read.
    pub open spec fn ends_clean(p: Pump, q: Pump, action: PumpAction) -> bool {
        &&& action is Finish
        &&& q.phase() == Phase::Done(Ok(p.copied() as usize))
        &&& q.received() == p.received()
        &&& q.delivered() == p.delivered()
    }

    /// The step from `p` to `q` on a read outcome, and the action it asks for.
    pub open spec fn read_step(p: Pump, outcome: ReadOutcome, q: Pump, action: PumpAction) -> bool {
        &&& q.direction() == p.direction()
        &&& q.copied() == p.copied()
        &&& match outcome {
            ReadOutcome::Bytes(b) => if b@.len() > 0 {
                &&& action matches PumpAction::Write(w) && w@ == b@
                &&& q.phase() == Phase::Writing(b@.len() as usize)
                &&& q.received() == p.received() + b@
                &&& q.delivered() == p.delivered()
            } else {
                Self::ends_clean(p, q, action)
            },
            ReadOutcome::Failed(kind, detail) => if is_benign(kind) {
                Self::ends_clean(p, q, action)
            } else {
                &&& action is Finish
                &&& q.phase() == Phase::Done(Err(PumpError::Read(detail)))
                &&& q.received() == p.received()
                &&& q.delivered() == p.delivered()
            },
            ReadOutcome::Cancelled => Self::ends_clean(p, q, action),
        }
    }

    /// The step from `p` to `q` when the pending write completed or failed.
    pub open spec fn write_step(p: Pump, result: Result<(), String>, q: Pump, action: PumpAction) -> bool {
        &&& q.direction() == p.direction()
        &&& q.received() == p.received()
        &&& match result {
            Ok(()) => {
                &&& action is Read
                &&& q.phase() is Reading
                &&& q.delivered() == p.received()
                &&& q.copied() == p.copied() + p.phase()->Writing_0
            },
            Err(detail) => {
                &&& action is Finish
                &&& q.phase() == Phase::Done(Err(PumpError::Write(detail)))
                &&& q.delivered() == p.delivered()
                &&& q.copied() == p.copied()
            },
        }
    }

    /// A pump in the given direction that has read and written nothing yet.
    pub open spec fn is_fresh(&self, direction: Direction) -> bool {
        &&& self.direction() == direction
        &&& self.phase() is Reading
        &&& self.copied() == 0
        &&& self.received() == Seq::<u8>::empty()
        &&& self.delivered() == Seq::<u8>::empty()
    }

    /// A pump that has read and written nothing yet.
    pub fn new(direction: Direction) -> (r: Pump)
        ensures
            r.wf(),
            r.is_fresh(direction),
    {
        let r = Pump {
            direction,
            copied: 0,
            phase: Phase::Reading,
            received: Ghost(Seq::empty()),
            delivered: Ghost(Seq::empty()),
        };
        assert(r.received@.subrange(0, 0) =~= r.delivered@);
        r
    }

    /// Takes the outcome of a read: bytes read are handed on to be written
    /// whole; an end of stream, a benign reset or abort, and the cancellation
    /// signal end the pump well; any other read failure ends it in error.
    pub fn on_read(&mut self, outcome: ReadOutcome) -> (action: PumpAction)
        requires
            old(self).wf(),
            old(self).phase() is Reading,
            outcome matches ReadOutcome::Bytes(b) ==> old(self).copied() + b@.len() <= usize::MAX,
        ensures
            final(self).wf(),
            Self::read_step(*old(self), outcome, *final(self), action),
    {
        match outcome {
            ReadOutcome::Bytes(b) => {
                if b.len() > 0 {
                    self.phase = Phase::Writing(b.len());
                    self.received = Ghost(self.received@ + b@);
                    assert(self.received@.subrange(0, self.delivered@.len() as int)
                        =~= self.delivered@);
                    PumpAction::Write(b)
                } else {
                    self.phase = Phase::Done(Ok(self.copied));
                    PumpAction::Finish
                }
            },
            ReadOutcome::Failed(kind, detail) => {
                if kind == FailureKind::ConnectionReset || kind == FailureKind::ConnectionAborted {
                    self.phase = Phase::Done(Ok(self.copied));
                } else {
                    self.phase = Phase::Done(Err(PumpError::Read(detail)));
                }
                PumpAction::Finish
            },
            ReadOutcome::Cancelled => {
                self.phase = Phase::Done(Ok(self.copied));
                PumpAction::Finish
            },
        }
    }

    /// Takes the result of writing the pending bytes: on success they count
    /// as copied and the pump reads again; a failed write ends it in error.
    pub fn on_write(&mut self, result: Result<(), String>) -> (action: PumpAction)
        requires
            old(self).wf(),
            old(self).phase() is Writing,
        ensures
            final(self).wf(),
            Self::write_step(*old(self), result, *final(self), action),
    {
        let n = match &self.phase {
            Phase::Writing(n) => *n,
            _ => 0,
        };
        match result {
            Ok(()) => {
                self.copied = self.copied + n;
                self.delivered = Ghost(self.received@);
                self.phase = Phase::Reading;
                assert(self.received@.subrange(0, self.delivered@.len() as int)
                    =~= self.received@);
                PumpAction::Read
            },
            Err(detail) => {
                self.phase = Phase::Done(Err(PumpError::Write(detail)));
                PumpAction::Finish
            },
        }
    }

    /// The number of bytes written to the write side so far.
    pub fn bytes_copied(&self) -> (r: usize)
        ensures
            r == self.copied(),
    {
        self.copied
    }

    /// Whether the pump has ended.
    pub fn is_finished(&self) -> (r: bool)
        ensures
            r == self.is_done(),
    {
        match &self.phase {
            Phase::Done(_) => true,
            _ => false,
        }
    }

    /// The outcome of an ended pump: the number of bytes copied, or its error.
    pub fn into_outcome(self) -> (r: Result<usize, PumpError>)
        requires
            self.is_done(),
        ensures
            self.phase() == Phase::Done(r),
    {
        match self.phase {
            Phase::Done(r) => r,
            _ => Ok(self.copied),
        }
    }
}

} // verus!
