//! Laws about whole test runs, proved over the ledger model.
//!
//! A run is a sequence of [`HandleCall`]s folded over the ledger by
//! [`replay`]. The laws here say when `finalise` must succeed, when it must
//! fail, how the cursor moves, that expectations tagged with one identity are
//! never consumed by another, and that canned read payloads round-trip.

use vstd::prelude::*;

use crate::model::{
    LedgerView, Op, SubOp, PinState, HandleCall, peek, step, replay, observed, read_payload,
    transfer_payload, busy_level, ready_level, is_high_value, is_low_value, filled_sub,
    filled_subs,
};
use crate::transaction::Id;

verus! {

/// The records that a run of calls appends to the actual sequence, in order.
pub open spec fn observed_trace(l: LedgerView, cs: Seq<HandleCall>) -> Seq<Op>
    decreases cs.len(),
{
    if cs.len() == 0 {
        Seq::empty()
    } else {
        seq![observed(l, cs[0])] + observed_trace(step(l, cs[0]), cs.drop_first())
    }
}

/// A run never touches the expected sequence, advances the cursor by exactly
/// one per call, and appends exactly its observed records to the actual
/// sequence.
pub proof fn lemma_replay(l: LedgerView, cs: Seq<HandleCall>)
    ensures
        replay(l, cs).expected == l.expected,
        replay(l, cs).cursor == l.cursor + cs.len(),
        replay(l, cs).actual == l.actual + observed_trace(l, cs),
        observed_trace(l, cs).len() == cs.len(),
    decreases cs.len(),
{
    if cs.len() == 0 {
        assert(l.actual + observed_trace(l, cs) =~= l.actual);
    } else {
        let l1 = step(l, cs[0]);
        lemma_replay(l1, cs.drop_first());
        assert(l.actual + observed_trace(l, cs) =~= l1.actual + observed_trace(
            l1,
            cs.drop_first(),
        ));
    }
}

/// The record appended by the call at position `i` of a run is observed
/// against the ledger as it stands after the calls before it.
pub proof fn lemma_trace_index(l: LedgerView, cs: Seq<HandleCall>, i: int)
    requires
        0 <= i < cs.len(),
    ensures
        observed_trace(l, cs)[i] == observed(replay(l, cs.take(i)), cs[i]),
    decreases i,
{
    let l1 = step(l, cs[0]);
    lemma_replay(l1, cs.drop_first());
    assert(observed_trace(l, cs) == seq![observed(l, cs[0])] + observed_trace(
        l1,
        cs.drop_first(),
    ));
    if i == 0 {
        assert(cs.take(0) =~= Seq::<HandleCall>::empty());
        assert(observed_trace(l, cs)[0] == observed(l, cs[0]));
    } else {
        lemma_trace_index(l1, cs.drop_first(), i - 1);
        assert(observed_trace(l, cs)[i] == observed_trace(l1, cs.drop_first())[i - 1]);
        assert(cs.take(i)[0] == cs[0]);
        assert(cs.take(i).drop_first() =~= cs.drop_first().take(i - 1));
        assert(replay(l, cs.take(i)) == replay(l1, cs.drop_first().take(i - 1)));
        assert(cs.drop_first()[i - 1] == cs[i]);
    }
}

/// Cursor monotonicity: after N completed operations — a composite call
/// counting once however many sub-requests it carries — the cursor equals its
/// starting value plus N, and it reaches that value passing through every
/// prefix in turn, one step at a time.
pub proof fn lemma_cursor_monotonic(l: LedgerView, cs: Seq<HandleCall>)
    ensures
        replay(l, cs).cursor == l.cursor + cs.len(),
        forall|i: int| 0 <= i <= cs.len() ==> replay(l, cs.take(i)).cursor == l.cursor + i,
{
    lemma_replay(l, cs);
    assert forall|i: int| 0 <= i <= cs.len() implies replay(l, cs.take(i)).cursor == l.cursor
        + i by {
        lemma_replay(l, cs.take(i));
    }
}

/// A matching run verifies: when expectations were built with the identities,
/// kinds and payloads of the calls themselves — element n of the loaded
/// sequence equals the record that call n produces — replaying the whole run
/// on the freshly loaded ledger leaves the expected and actual sequences
/// equal, so `finalise` succeeds.
pub proof fn lemma_matching_run_verifies(l0: LedgerView, cs: Seq<HandleCall>)
    requires
        l0.cursor == 0,
        l0.actual == Seq::<Op>::empty(),
        l0.expected.len() == cs.len(),
        forall|i: int|
            0 <= i < cs.len() ==> l0.expected[i] == observed(replay(l0, cs.take(i)), cs[i]),
    ensures
        replay(l0, cs).expected == replay(l0, cs).actual,
{
    lemma_replay(l0, cs);
    assert forall|i: int| 0 <= i < cs.len() implies observed_trace(l0, cs)[i]
        == l0.expected[i] by {
        lemma_trace_index(l0, cs, i);
    }
    assert(replay(l0, cs).expected =~= replay(l0, cs).actual);
}

/// A divergent run fails: when the run is shorter or longer than the loaded
/// expectations, or some call's record differs from the expectation at its
/// position, the expected and actual sequences differ, so `finalise` signals
/// failure.
pub proof fn lemma_divergent_run_fails(l0: LedgerView, cs: Seq<HandleCall>)
    requires
        l0.cursor == 0,
        l0.actual == Seq::<Op>::empty(),
        l0.expected.len() != cs.len() || exists|i: int|
            0 <= i < cs.len() && l0.expected[i] != observed(replay(l0, cs.take(i)), cs[i]),
    ensures
        replay(l0, cs).expected != replay(l0, cs).actual,
{
    lemma_replay(l0, cs);
    assert(replay(l0, cs).actual =~= observed_trace(l0, cs));
    if l0.expected.len() != cs.len() {
        assert(replay(l0, cs).expected.len() != replay(l0, cs).actual.len());
    } else {
        let i = choose|i: int|
            0 <= i < cs.len() && l0.expected[i] != observed(replay(l0, cs.take(i)), cs[i]);
        lemma_trace_index(l0, cs, i);
        assert(replay(l0, cs).actual[i] != replay(l0, cs).expected[i]);
    }
}

/// The identity a record is tagged with; delay records carry none.
pub open spec fn op_identity(op: Op) -> Option<Id> {
    match op {
        Op::NoOp => None,
        Op::SpiWrite(id, _, _) => Some(id),
        Op::SpiRead(id, _, _) => Some(id),
        Op::SpiExec(id, _) => Some(id),
        Op::Busy(id, _) => Some(id),
        Op::Ready(id, _) => Some(id),
        Op::Reset(id, _) => Some(id),
        Op::Write(id, _) => Some(id),
        Op::Transfer(id, _, _) => Some(id),
        Op::IsHigh(id, _) => Some(id),
        Op::IsLow(id, _) => Some(id),
        Op::SetHigh(id) => Some(id),
        Op::SetLow(id) => Some(id),
        Op::DelayMs(_) => None,
    }
}

/// The identity a call is issued under; delay calls carry none.
pub open spec fn call_identity(c: HandleCall) -> Option<Id> {
    match c {
        HandleCall::SpiWrite { id, .. } => Some(id),
        HandleCall::SpiRead { id, .. } => Some(id),
        HandleCall::SpiExec { id, .. } => Some(id),
        HandleCall::GetBusy { id } => Some(id),
        HandleCall::GetReady { id } => Some(id),
        HandleCall::SetReset { id, .. } => Some(id),
        HandleCall::Write { id, .. } => Some(id),
        HandleCall::Transfer { id, .. } => Some(id),
        HandleCall::IsHigh { id } => Some(id),
        HandleCall::IsLow { id } => Some(id),
        HandleCall::SetHigh { id } => Some(id),
        HandleCall::SetLow { id } => Some(id),
        HandleCall::DelayMs { .. } => None,
    }
}

/// Identity isolation: an expectation tagged with identity `a` is neither
/// consumed nor matched by a call under a different identity `b`. Every
/// read-like synthesis for `b` falls back to its default, yet the call still
/// advances the cursor by one and records `b`'s real call — a record that
/// cannot equal the `a`-tagged expectation, so an otherwise complete run
/// fails `finalise`.
pub proof fn lemma_identity_isolation(
    l: LedgerView,
    c: HandleCall,
    a: Id,
    b: Id,
    buf: Seq<u8>,
    subs: Seq<SubOp>,
)
    requires
        l.cursor < l.expected.len(),
        op_identity(l.expected[l.cursor as int]) == Some(a),
        call_identity(c) == Some(b),
        a != b,
    ensures
        is_high_value(l, b) == false,
        is_low_value(l, b) == false,
        busy_level(l, b) == PinState::Low,
        ready_level(l, b) == PinState::Low,
        read_payload(l, b, buf) == buf,
        transfer_payload(l, b, buf) == buf,
        filled_subs(l, b, subs) == subs,
        step(l, c).cursor == l.cursor + 1,
        step(l, c).actual == l.actual.push(observed(l, c)),
        op_identity(observed(l, c)) == Some(b),
        observed(l, c) != l.expected[l.cursor as int],
{
    assert(peek(l) == Some(l.expected[l.cursor as int]));
    assert forall|i: int| 0 <= i < subs.len() implies filled_sub(l, b, i, subs[i]) == subs[i] by {
        match subs[i] {
            SubOp::Read(_) => {},
            SubOp::Write(_) => {},
        }
    }
    assert(filled_subs(l, b, subs) =~= subs);
}

/// Identity isolation over a whole run: if at some position the call was
/// issued under identity `b` while the expectation queued at the cursor there
/// is tagged `a` different from `b`, then however the rest of the run goes,
/// the completed run fails `finalise`.
pub proof fn lemma_identity_mismatch_fails(
    l0: LedgerView,
    cs: Seq<HandleCall>,
    i: int,
    a: Id,
    b: Id,
)
    requires
        l0.cursor == 0,
        l0.actual == Seq::<Op>::empty(),
        0 <= i < cs.len(),
        i < l0.expected.len(),
        op_identity(l0.expected[i]) == Some(a),
        call_identity(cs[i]) == Some(b),
        a != b,
    ensures
        replay(l0, cs).expected != replay(l0, cs).actual,
{
    let li = replay(l0, cs.take(i));
    lemma_replay(l0, cs.take(i));
    lemma_identity_isolation(li, cs[i], a, b, Seq::empty(), Seq::empty());
    assert(l0.expected[i] != observed(li, cs[i]));
    lemma_divergent_run_fails(l0, cs);
}

/// Round trip: with a read expectation for this handle carrying payload `p`
/// queued at the cursor, a read into a buffer of matching length hands back
/// exactly `p`.
pub proof fn lemma_read_round_trip(l: LedgerView, id: Id, prefix: Seq<u8>, p: Seq<u8>, buf: Seq<u8>)
    requires
        peek(l) == Some(Op::SpiRead(id, prefix, p)),
        buf.len() == p.len(),
    ensures
        read_payload(l, id, buf) == p,
{
}

/// Round trip for transfers: with a transfer expectation for this handle
/// carrying incoming payload `p` queued at the cursor, a transfer of a buffer
/// of matching length hands back exactly `p`.
pub proof fn lemma_transfer_round_trip(
    l: LedgerView,
    id: Id,
    outgoing: Seq<u8>,
    p: Seq<u8>,
    buf: Seq<u8>,
)
    requires
        peek(l) == Some(Op::Transfer(id, outgoing, p)),
        buf.len() == p.len(),
    ensures
        transfer_payload(l, id, buf) == p,
{
}

} // verus!
