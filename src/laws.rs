use vstd::prelude::*;
use crate::pump::{is_benign, Direction, FailureKind, Phase, Pump, PumpAction, PumpError, ReadOutcome};
use crate::relay::Relay;

verus! {

/// One round of a pump, a read of bytes and then a completed write, writes
/// exactly the bytes that were read and appends them, in order, to what
/// the write side has received; nothing is dropped or reordered.
pub proof fn lemma_round_relays_chunk(
    p: Pump,
    b: Vec<u8>,
    q: Pump,
    w: Vec<u8>,
    s: Pump,
    a: PumpAction,
)
    requires
        p.wf(),
        p.phase() is Reading,
        b@.len() > 0,
        Pump::read_step(p, ReadOutcome::Bytes(b), q, PumpAction::Write(w)),
        q.wf(),
        Pump::write_step(q, Ok(()), s, a),
    ensures
        w@ == b@,
        a is Read,
        s.phase() is Reading,
        s.received() == p.received() + b@,
        s.delivered() == p.delivered() + b@,
        s.copied() == p.copied() + b@.len(),
{
    assert(p.delivered() =~= p.received());
}

/// The bytes of a sequence of chunks, one after another.
pub open spec fn joined(chunks: Seq<Seq<u8>>) -> Seq<u8>
    decreases chunks.len(),
{
    if chunks.len() == 0 {
        Seq::empty()
    } else {
        joined(chunks.drop_last()) + chunks.last()
    }
}

/// The pump goes from `p` to `s` by one round: a read of `chunk`, the write
/// it asks for, and that write completing.
pub open spec fn relays_round(p: Pump, chunk: Seq<u8>, s: Pump) -> bool {
    exists|b: Vec<u8>, q: Pump, w: Vec<u8>, a: PumpAction|
        {
            &&& b@ == chunk
            &&& #[trigger] Pump::read_step(p, ReadOutcome::Bytes(b), q, PumpAction::Write(w))
            &&& q.wf()
            &&& #[trigger] Pump::write_step(q, Ok(()), s, a)
            &&& s.wf()
        }
}

proof fn lemma_rounds(states: Seq<Pump>, chunks: Seq<Seq<u8>>)
    requires
        states.len() == chunks.len() + 1,
        states[0].wf(),
        states[0].phase() is Reading,
        forall|i: int|
            0 <= i < chunks.len() ==> #[trigger] relays_round(
                states[i],
                chunks[i],
                states[i + 1],
            ),
    ensures
        states.last().wf(),
        states.last().phase() is Reading,
        states.last().delivered() == states[0].delivered() + joined(chunks),
        states.last().copied() == states[0].copied() + joined(chunks).len(),
    decreases chunks.len(),
{
    if chunks.len() == 0 {
        assert(states[0].delivered() + joined(chunks) =~= states[0].delivered());
    } else {
        let n = chunks.len() - 1;
        let prefix = states.drop_last();
        assert forall|i: int| 0 <= i < chunks.drop_last().len() implies #[trigger] relays_round(prefix[i], chunks.drop_last()[i], prefix[i + 1]) by {
            assert(relays_round(states[i], chunks[i], states[i + 1]));
        }
        lemma_rounds(prefix, chunks.drop_last());
        assert(relays_round(states[n], chunks[n], states[n + 1]));
        let (b, q, w, a) = choose|b: Vec<u8>, q: Pump, w: Vec<u8>, a: PumpAction|
            {
                &&& b@ == chunks[n]
                &&& #[trigger] Pump::read_step(
                    states[n],
                    ReadOutcome::Bytes(b),
                    q,
                    PumpAction::Write(w),
                )
                &&& q.wf()
                &&& #[trigger] Pump::write_step(q, Ok(()), states[n + 1], a)
                &&& states[n + 1].wf()
            };
        assert(prefix.last() == states[n]);
        lemma_round_relays_chunk(states[n], b, q, w, states[n + 1], a);
        assert(states[0].delivered() + joined(chunks) =~= states[0].delivered() + joined(
            chunks.drop_last(),
        ) + chunks[n]);
    }
}

/// A stream relayed by a pump, in any chunking, comes out exactly: after
/// rounds that read the chunks and wrote them, and then the end of the
/// stream, the write side has received the chunks' bytes one after another,
/// with nothing lost, repeated or reordered, and the count is their number.
pub proof fn lemma_stream_relayed_exactly(
    states: Seq<Pump>,
    chunks: Seq<Seq<u8>>,
    eof: Vec<u8>,
    end: Pump,
    a: PumpAction,
)
    requires
        states.len() == chunks.len() + 1,
        states[0].wf(),
        states[0].is_fresh(states[0].direction()),
        forall|i: int|
            0 <= i < chunks.len() ==> #[trigger] relays_round(
                states[i],
                chunks[i],
                states[i + 1],
            ),
        eof@.len() == 0,
        Pump::read_step(states.last(), ReadOutcome::Bytes(eof), end, a),
    ensures
        a is Finish,
        end.delivered() == joined(chunks),
        end.received() == joined(chunks),
        end.phase() == Phase::Done(Ok::<usize, PumpError>(joined(chunks).len() as usize)),
{
    lemma_rounds(states, chunks);
    assert(states[0].delivered() + joined(chunks) =~= joined(chunks));
    assert(states.last().delivered() =~= states.last().received());
}

/// A pump that ends well has written every byte that it read, in order,
/// and reports their number.
pub proof fn lemma_clean_end_is_exact(p: Pump)
    requires
        p.wf(),
        p.phase() matches Phase::Done(Ok(_)),
    ensures
        p.delivered() == p.received(),
        p.phase() == Phase::Done(Ok(p.received().len() as usize)),
{
    assert(p.delivered() =~= p.received());
}

/// At the end of the stream a pump ends well, counting the bytes it wrote,
/// which are all that it read, and the session's signal fires.
pub proof fn lemma_end_of_stream_fires(r: Relay, d: Direction, b: Vec<u8>, s: Relay, a: PumpAction)
    requires
        r.wf(),
        r.pump(d).phase() is Reading,
        b@.len() == 0,
        Relay::read_step(r, d, ReadOutcome::Bytes(b), s, a),
    ensures
        a is Finish,
        s.cancelled(),
        s.pump(d).delivered() == r.pump(d).received(),
        s.pump(d).phase() == Phase::Done(Ok(s.pump(d).delivered().len() as usize)),
{
    match d {
        Direction::ClientToUpstream => {},
        Direction::UpstreamToClient => {},
    }
    assert(r.pump(d).delivered() =~= r.pump(d).received());
}

/// Once one pump has ended, a read of the other that loses the race to the
/// signal ends that pump well too, and the session is over.
pub proof fn lemma_signal_ends_sibling(r: Relay, d: Direction, s: Relay, a: PumpAction)
    requires
        r.wf(),
        r.pump(Relay::sibling(d)).is_done(),
        r.pump(d).phase() is Reading,
        Relay::read_step(r, d, ReadOutcome::Cancelled, s, a),
    ensures
        r.cancelled(),
        a is Finish,
        s.pump(d).phase() == Phase::Done(Ok(r.pump(d).copied() as usize)),
        s.is_done(),
{
    match d {
        Direction::ClientToUpstream => {},
        Direction::UpstreamToClient => {},
    }
}

/// A reset or an abort by the peer ends a pump exactly as an end of stream
/// does: well, with no error, and firing the signal.
pub proof fn lemma_reset_is_end_of_stream(
    r: Relay,
    d: Direction,
    kind: FailureKind,
    detail: String,
    s: Relay,
    a: PumpAction,
    b: Vec<u8>,
    t: Relay,
    c: PumpAction,
)
    requires
        r.wf(),
        r.pump(d).phase() is Reading,
        is_benign(kind),
        b@.len() == 0,
        Relay::read_step(r, d, ReadOutcome::Failed(kind, detail), s, a),
        Relay::read_step(r, d, ReadOutcome::Bytes(b), t, c),
    ensures
        a is Finish && c is Finish,
        s.cancelled() && t.cancelled(),
        s.pump(d).phase() == t.pump(d).phase(),
        s.pump(d).phase() == Phase::Done(Ok::<usize, PumpError>(r.pump(d).copied() as usize)),
        s.pump(d).received() == t.pump(d).received(),
        s.pump(d).delivered() == t.pump(d).delivered(),
        s.pump(Relay::sibling(d)) == t.pump(Relay::sibling(d)),
{
}

} // verus!
