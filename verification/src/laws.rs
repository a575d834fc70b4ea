//! Laws of the connection loop, proved over the mathematical transition
//! relation [`next_model`] / [`next_action`] that [`Handler::step`]
//! implements: what whole runs of the machine do, not just single steps.

use vstd::prelude::*;

use crate::handler::{
    enabled, init_model, next_action, next_model, wf, ActionView, EventView, Model, Phase, BUF_CAPACITY,
};
use crate::response::response_spec;
use crate::terminator::has_terminator;

verus! {

/// The state after `m` consumes the events of `events` in order.
pub open spec fn run_model(m: Model, events: Seq<EventView>) -> Model
    decreases events.len(),
{
    if events.len() == 0 {
        m
    } else {
        run_model(next_model(m, events[0]), events.drop_first())
    }
}

/// The actions issued while `m` consumes the events of `events` in
/// order, one action per event.
pub open spec fn run_actions(m: Model, events: Seq<EventView>) -> Seq<ActionView>
    decreases events.len(),
{
    if events.len() == 0 {
        Seq::empty()
    } else {
        seq![next_action(m, events[0])] + run_actions(next_model(m, events[0]), events.drop_first())
    }
}

/// Every event of `events` answers the operation outstanding when it
/// arrives.
pub open spec fn run_enabled(m: Model, events: Seq<EventView>) -> bool
    decreases events.len(),
{
    events.len() == 0 || (enabled(m, events[0]) && run_enabled(next_model(m, events[0]), events.drop_first()))
}

/// A run issues exactly one action per event.
pub proof fn lemma_run_actions_len(m: Model, events: Seq<EventView>)
    ensures
        run_actions(m, events).len() == events.len(),
    decreases events.len(),
{
    if events.len() > 0 {
        lemma_run_actions_len(next_model(m, events[0]), events.drop_first());
    }
}

/// Well-formedness is preserved by every enabled step: in particular the
/// accumulated request bytes never exceed the scratch buffer's capacity.
pub proof fn lemma_step_preserves_wf(m: Model, e: EventView)
    requires
        wf(m),
        enabled(m, e),
    ensures
        wf(next_model(m, e)),
{
}

/// Well-formedness holds across whole runs: however long the machine is
/// driven, as long as each event answers the outstanding operation, the
/// buffer bound is never broken.
pub proof fn lemma_run_preserves_wf(m: Model, events: Seq<EventView>)
    requires
        wf(m),
        run_enabled(m, events),
    ensures
        wf(run_model(m, events)),
    decreases events.len(),
{
    if events.len() > 0 {
        lemma_step_preserves_wf(m, events[0]);
        lemma_run_preserves_wf(next_model(m, events[0]), events.drop_first());
    }
}

/// The concatenation of a sequence of byte chunks.
pub open spec fn concat_chunks(chunks: Seq<Seq<u8>>) -> Seq<u8>
    decreases chunks.len(),
{
    if chunks.len() == 0 {
        Seq::empty()
    } else {
        chunks[0] + concat_chunks(chunks.drop_first())
    }
}

/// The state after the bytes of `chunks` arrive as successive reads,
/// stopping — as a real peer's remaining bytes go unread — as soon as
/// the handler is no longer reading.
pub open spec fn deliver_reads(m: Model, chunks: Seq<Seq<u8>>) -> Model
    decreases chunks.len(),
{
    if chunks.len() == 0 || !(m.phase is Reading) {
        m
    } else {
        deliver_reads(next_model(m, EventView::ReadData(chunks[0])), chunks.drop_first())
    }
}

/// Terminator detection across split reads: however a byte stream is cut
/// into successive reads, if its concatenation (appended to whatever was
/// already buffered) contains `\r\n\r\n`, delivering those reads leaves
/// the handler about to respond — found in the accumulated bytes, or, for
/// a stream that overruns the scratch buffer, by the full-buffer policy
/// that ends reading just the same.
pub proof fn lemma_terminator_detected(m: Model, chunks: Seq<Seq<u8>>)
    requires
        wf(m),
        m.phase is Reading,
        has_terminator(m.buf + concat_chunks(chunks)),
    ensures
        deliver_reads(m, chunks).phase is Responding,
    decreases chunks.len(),
{
    if chunks.len() == 0 {
        assert(m.buf + concat_chunks(chunks) =~= m.buf);
    } else {
        let first = chunks[0];
        let rest = chunks.drop_first();
        let combined = m.buf + first;
        let m1 = next_model(m, EventView::ReadData(first));
        assert(deliver_reads(m, chunks) == deliver_reads(m1, rest));
        if has_terminator(combined) || combined.len() >= BUF_CAPACITY {
            assert(m1.phase is Responding);
            assert(deliver_reads(m1, rest) == m1);
        } else {
            assert(combined + concat_chunks(rest) =~= m.buf + concat_chunks(chunks));
            lemma_terminator_detected(m1, rest);
        }
    }
}

/// A peer that closes without ever sending the terminator still gets a
/// response: end of stream ends the reading phase.
pub proof fn lemma_eof_reaches_responding(m: Model)
    requires
        m.phase is Reading,
    ensures
        next_model(m, EventView::ReadEof).phase is Responding,
{
}

/// A transport error while reading also ends the reading phase; the
/// connection still proceeds to the response and the close sequence.
pub proof fn lemma_read_error_reaches_responding(m: Model)
    requires
        m.phase is Reading,
    ensures
        next_model(m, EventView::ReadErr).phase is Responding,
{
}

/// Every write the machine ever asks for carries the one fixed response,
/// whatever the state and whatever was received.
pub proof fn lemma_write_is_fixed(m: Model, e: EventView)
    requires
        next_action(m, e) is Write,
    ensures
        next_action(m, e) == ActionView::Write(response_spec()),
{
}

/// Response invariance: any two writes the machine asks for — under any
/// two states, any two request contents — carry identical bytes.
pub proof fn lemma_response_invariance(m1: Model, e1: EventView, m2: Model, e2: EventView)
    requires
        next_action(m1, e1) is Write,
        next_action(m2, e2) is Write,
    ensures
        next_action(m1, e1) == next_action(m2, e2),
{
    lemma_write_is_fixed(m1, e1);
    lemma_write_is_fixed(m2, e2);
}

/// The phases in which a connection is still open and its forced abort
/// has not yet been issued.
pub open spec fn connection_active(p: Phase) -> bool {
    p is Reading || p is Responding || p is Closing || p is CloseGrace
}

/// Sequential exclusivity: while a connection is active, no accept is
/// issued until after the abort that frees its socket — under any event
/// sequence whatsoever.
pub proof fn lemma_sequential_exclusivity(m: Model, events: Seq<EventView>, j: int)
    requires
        connection_active(m.phase),
        0 <= j < events.len(),
        run_actions(m, events)[j] is Accept,
    ensures
        exists|k: int| 0 <= k < j && run_actions(m, events)[k] is Abort,
    decreases events.len(),
{
    let m1 = next_model(m, events[0]);
    let tail = events.drop_first();
    let acts = run_actions(m, events);
    let tail_acts = run_actions(m1, tail);
    lemma_run_actions_len(m, events);
    lemma_run_actions_len(m1, tail);
    assert(acts == seq![next_action(m, events[0])] + tail_acts);
    assert(forall|i: int| 1 <= i < acts.len() ==> acts[i] == tail_acts[i - 1]);
    if j == 0 {
        assert(!(next_action(m, events[0]) is Accept));
    } else if m.phase is CloseGrace && events[0] is Done {
        assert(acts[0] is Abort);
    } else {
        assert(connection_active(m1.phase));
        lemma_sequential_exclusivity(m1, tail, j - 1);
        let k = choose|k: int| 0 <= k < j - 1 && tail_acts[k] is Abort;
        assert(acts[k + 1] is Abort);
    }
}

/// Close ordering: once the response write completes — with or without
/// an injected write failure — the operations issued are exactly the
/// graceful close, the grace delay, the forced abort and the second
/// delay, in that order.
pub proof fn lemma_close_ordering(m: Model, write_result: EventView)
    requires
        m.phase is Responding,
        write_result is WriteOk || write_result is WriteErr,
    ensures
        run_actions(
            m,
            seq![write_result, EventView::Done, EventView::Done, EventView::Done],
        ) =~= seq![ActionView::Close, ActionView::Delay, ActionView::Abort, ActionView::Delay],
{
    reveal_with_fuel(run_actions, 5);
}

/// A whole successful exchange, from the first accept on: the peer
/// connects, one read delivers a request holding the terminator, and the
/// operations issued are exactly one read, one write of the fixed
/// response, the close, a delay, the abort, a delay, and only then the
/// next accept — whether or not the write failed.
pub proof fn lemma_single_read_exchange(data: Seq<u8>, write_result: EventView)
    requires
        has_terminator(data),
        write_result is WriteOk || write_result is WriteErr,
    ensures
        run_actions(
            init_model(),
            seq![
                EventView::AcceptOk,
                EventView::ReadData(data),
                write_result,
                EventView::Done,
                EventView::Done,
                EventView::Done,
                EventView::Done,
            ],
        ) =~= seq![
            ActionView::Read,
            ActionView::Write(response_spec()),
            ActionView::Close,
            ActionView::Delay,
            ActionView::Abort,
            ActionView::Delay,
            ActionView::Accept,
        ],
{
    reveal_with_fuel(run_actions, 8);
    assert(Seq::<u8>::empty() + data =~= data);
}

/// Error absorption: a failed accept leaves the handler exactly where it
/// was — still accepting, no connection open — and the action issued is a
/// fresh accept; the loop never terminates on it.
pub proof fn lemma_error_absorption(m: Model)
    requires
        m.phase is Accepting,
    ensures
        next_model(m, EventView::AcceptErr) == m,
        next_action(m, EventView::AcceptErr) == ActionView::Accept,
{
}

} // verus!
