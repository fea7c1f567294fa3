//! Mathematical model of the expectation/actual ledger.
//!
//! An [`Op`] is the ghost description of one intercepted operation: its kind,
//! the identity of the handle that issued it (delays carry none), and the
//! payload that was observed or canned. A [`LedgerView`] is the abstract state
//! of the ledger: the expected sequence, the append-only actual sequence, and
//! the cursor into the expected sequence.
//!
//! [`step`] describes one complete handle call: the record it appends (which
//! for read-like operations depends on the expectation at the cursor) and the
//! cursor advancing by exactly one. [`replay`] folds `step` over a sequence of
//! calls; the laws about whole test runs are stated over it.

use vstd::prelude::*;

verus! {

/// Level of a digital line.
#[derive(Clone, Copy, PartialEq, Eq, Structural, Debug)]
pub enum PinState {
    Low,
    High,
}

/// One sub-request of a composite bus transaction: write these bytes, or
/// read into a buffer whose observed contents are these bytes.
#[verifier::ext_equal]
pub enum SubOp {
    Write(Seq<u8>),
    Read(Seq<u8>),
}

/// Ghost description of one intercepted operation: kind, handle identity
/// (delays have none) and payload.
#[verifier::ext_equal]
pub enum Op {
    NoOp,
    SpiWrite(u32, Seq<u8>, Seq<u8>),
    SpiRead(u32, Seq<u8>, Seq<u8>),
    SpiExec(u32, Seq<SubOp>),
    Busy(u32, PinState),
    Ready(u32, PinState),
    Reset(u32, PinState),
    Write(u32, Seq<u8>),
    Transfer(u32, Seq<u8>, Seq<u8>),
    IsHigh(u32, bool),
    IsLow(u32, bool),
    SetHigh(u32),
    SetLow(u32),
    DelayMs(u32),
}

/// Abstract state of the ledger: expected operations, operations recorded so
/// far, and the cursor into the expected sequence.
#[verifier::ext_equal]
pub struct LedgerView {
    pub cursor: nat,
    pub expected: Seq<Op>,
    pub actual: Seq<Op>,
}

/// The expectation at the cursor, if any.
pub open spec fn peek(l: LedgerView) -> Option<Op> {
    if l.cursor < l.expected.len() {
        Some(l.expected[l.cursor as int])
    } else {
        None
    }
}

/// The ledger after one operation that recorded `rec`: the record is appended
/// and the cursor advances by exactly one; the expected sequence never changes.
pub open spec fn advanced(l: LedgerView, rec: Op) -> LedgerView {
    LedgerView { cursor: l.cursor + 1, expected: l.expected, actual: l.actual.push(rec) }
}

/// Bytes handed back by a bus read issued by handle `id` on a buffer holding
/// `buf`: the canned payload when a read expectation with the same identity
/// and a payload of matching length is at the cursor, otherwise the buffer is
/// left as it was.
pub open spec fn read_payload(l: LedgerView, id: u32, buf: Seq<u8>) -> Seq<u8> {
    match peek(l) {
        Some(Op::SpiRead(eid, _prefix, incoming)) => if eid == id && incoming.len()
            == buf.len() {
            incoming
        } else {
            buf
        },
        _ => buf,
    }
}

/// Bytes left in the buffer after a transfer issued by handle `id` on a buffer
/// holding `buf`: the canned incoming bytes when a transfer expectation with
/// the same identity and matching length is at the cursor, else unchanged.
pub open spec fn transfer_payload(l: LedgerView, id: u32, buf: Seq<u8>) -> Seq<u8> {
    match peek(l) {
        Some(Op::Transfer(eid, _outgoing, incoming)) => if eid == id && incoming.len()
            == buf.len() {
            incoming
        } else {
            buf
        },
        _ => buf,
    }
}

/// Level reported by a busy query from handle `id`: the canned level when a
/// busy expectation with the same identity is at the cursor, else low.
pub open spec fn busy_level(l: LedgerView, id: u32) -> PinState {
    match peek(l) {
        Some(Op::Busy(eid, state)) => if eid == id {
            state
        } else {
            PinState::Low
        },
        _ => PinState::Low,
    }
}

/// Level reported by a ready query from handle `id`; defaults to low.
pub open spec fn ready_level(l: LedgerView, id: u32) -> PinState {
    match peek(l) {
        Some(Op::Ready(eid, state)) => if eid == id {
            state
        } else {
            PinState::Low
        },
        _ => PinState::Low,
    }
}

/// Value reported by an is-high query from handle `id`; defaults to false.
pub open spec fn is_high_value(l: LedgerView, id: u32) -> bool {
    match peek(l) {
        Some(Op::IsHigh(eid, value)) => eid == id && value,
        _ => false,
    }
}

/// Value reported by an is-low query from handle `id`; defaults to false.
pub open spec fn is_low_value(l: LedgerView, id: u32) -> bool {
    match peek(l) {
        Some(Op::IsLow(eid, value)) => eid == id && value,
        _ => false,
    }
}

/// The sub-request at position `i` of a composite call by handle `id`, after
/// canned read data is copied in: a read is filled from the positional
/// sub-operation of a composite expectation with the same identity when the
/// lengths match; writes and everything else pass through unchanged.
pub open spec fn filled_sub(l: LedgerView, id: u32, i: int, s: SubOp) -> SubOp {
    match s {
        SubOp::Read(buf) => match peek(l) {
            Some(Op::SpiExec(eid, subs)) => if eid == id && 0 <= i < subs.len() {
                match subs[i] {
                    SubOp::Read(canned) => if canned.len() == buf.len() {
                        SubOp::Read(canned)
                    } else {
                        SubOp::Read(buf)
                    },
                    SubOp::Write(_) => SubOp::Read(buf),
                }
            } else {
                SubOp::Read(buf)
            },
            _ => SubOp::Read(buf),
        },
        SubOp::Write(data) => SubOp::Write(data),
    }
}

/// All sub-requests of a composite call after canned read data is copied in.
pub open spec fn filled_subs(l: LedgerView, id: u32, subs: Seq<SubOp>) -> Seq<SubOp> {
    Seq::new(subs.len(), |i: int| filled_sub(l, id, i, subs[i]))
}

/// Ghost description of one handle call as issued by the code under test:
/// the handle identity, the kind, and the caller-side inputs (for read-like
/// calls, the buffer contents before the call).
#[verifier::ext_equal]
pub enum HandleCall {
    SpiWrite { id: u32, prefix: Seq<u8>, data: Seq<u8> },
    SpiRead { id: u32, prefix: Seq<u8>, buf: Seq<u8> },
    SpiExec { id: u32, subs: Seq<SubOp> },
    GetBusy { id: u32 },
    GetReady { id: u32 },
    SetReset { id: u32, state: PinState },
    Write { id: u32, data: Seq<u8> },
    Transfer { id: u32, buf: Seq<u8> },
    IsHigh { id: u32 },
    IsLow { id: u32 },
    SetHigh { id: u32 },
    SetLow { id: u32 },
    DelayMs { ms: u32 },
}

/// The record that a call appends to the actual sequence: the caller's own
/// identity and inputs, and for read-like calls the payload actually handed
/// back (canned or default) as synthesized against ledger state `l`.
pub open spec fn observed(l: LedgerView, c: HandleCall) -> Op {
    match c {
        HandleCall::SpiWrite { id, prefix, data } => Op::SpiWrite(id, prefix, data),
        HandleCall::SpiRead { id, prefix, buf } => Op::SpiRead(
            id,
            prefix,
            read_payload(l, id, buf),
        ),
        HandleCall::SpiExec { id, subs } => Op::SpiExec(id, subs),
        HandleCall::GetBusy { id } => Op::Busy(id, busy_level(l, id)),
        HandleCall::GetReady { id } => Op::Ready(id, ready_level(l, id)),
        HandleCall::SetReset { id, state } => Op::Reset(id, state),
        HandleCall::Write { id, data } => Op::Write(id, data),
        HandleCall::Transfer { id, buf } => Op::Transfer(id, buf, transfer_payload(l, id, buf)),
        HandleCall::IsHigh { id } => Op::IsHigh(id, is_high_value(l, id)),
        HandleCall::IsLow { id } => Op::IsLow(id, is_low_value(l, id)),
        HandleCall::SetHigh { id } => Op::SetHigh(id),
        HandleCall::SetLow { id } => Op::SetLow(id),
        HandleCall::DelayMs { ms } => Op::DelayMs(ms),
    }
}

/// One complete handle call as a transition on the ledger: append the
/// observed record and advance the cursor once (a composite call counts once,
/// regardless of how many sub-requests it carries).
pub open spec fn step(l: LedgerView, c: HandleCall) -> LedgerView {
    advanced(l, observed(l, c))
}

/// The ledger after a whole run of handle calls, in order.
pub open spec fn replay(l: LedgerView, cs: Seq<HandleCall>) -> LedgerView
    decreases cs.len(),
{
    if cs.len() == 0 {
        l
    } else {
        replay(step(l, cs[0]), cs.drop_first())
    }
}

} // verus!
