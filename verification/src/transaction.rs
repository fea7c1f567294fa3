//! Executable operation records and the structural equality used by `verify`.
//!
//! [`MockTransaction`] is the runtime form of an [`Op`]: the tagged, immutable
//! description of one expected or intercepted call. [`MockExec`] and
//! [`Transaction`] carry the sub-requests of a composite bus call.
//! Each type views to its ghost counterpart in [`crate::model`].

use vstd::prelude::*;

use crate::model::{Op, SubOp, PinState};

verus! {

/// Identity of a handle, minted sequentially by the controller.
pub type Id = u32;

/// One sub-request handed to a composite bus call by the code under test:
/// write these bytes, or read into this buffer.
pub enum Transaction {
    Read(Vec<u8>),
    Write(Vec<u8>),
}

impl View for Transaction {
    type V = SubOp;

    open spec fn view(&self) -> SubOp {
        match self {
            Transaction::Read(data) => SubOp::Read(data@),
            Transaction::Write(data) => SubOp::Write(data@),
        }
    }
}

/// One sub-operation stored inside a composite expectation or record.
pub enum MockExec {
    SpiWrite(Vec<u8>),
    SpiRead(Vec<u8>),
}

impl View for MockExec {
    type V = SubOp;

    open spec fn view(&self) -> SubOp {
        match self {
            MockExec::SpiWrite(data) => SubOp::Write(data@),
            MockExec::SpiRead(data) => SubOp::Read(data@),
        }
    }
}

/// The sub-operations of a composite call, as ghost values.
pub open spec fn subs_view(s: Seq<MockExec>) -> Seq<SubOp> {
    s.map_values(|e: MockExec| e@)
}

/// The sub-requests handed to a composite call, as ghost values.
pub open spec fn requests_view(s: Seq<Transaction>) -> Seq<SubOp> {
    s.map_values(|t: Transaction| t@)
}

impl MockExec {
    /// An owned sub-operation copied from a caller's sub-request, so that
    /// later mutation of the caller's buffers cannot change what was queued
    /// or recorded.
    pub fn from(t: &Transaction) -> (r: Self)
        ensures
            r@ == t@,
    {
        match t {
            Transaction::Read(data) => MockExec::SpiRead(clone_bytes(data)),
            Transaction::Write(data) => MockExec::SpiWrite(clone_bytes(data)),
        }
    }
}

/// A tagged, immutable description of one operation: handle identity, kind,
/// and kind-specific payload. Used both for expectations and for records of
/// what actually happened; never mutated once built.
pub enum MockTransaction {
    NoOp,
    SpiWrite(Id, Vec<u8>, Vec<u8>),
    SpiRead(Id, Vec<u8>, Vec<u8>),
    SpiExec(Id, Vec<MockExec>),
    Busy(Id, PinState),
    Ready(Id, PinState),
    Reset(Id, PinState),
    Write(Id, Vec<u8>),
    Transfer(Id, Vec<u8>, Vec<u8>),
    IsHigh(Id, bool),
    IsLow(Id, bool),
    SetHigh(Id),
    SetLow(Id),
    DelayMs(u32),
}

impl View for MockTransaction {
    type V = Op;

    open spec fn view(&self) -> Op {
        match self {
            MockTransaction::NoOp => Op::NoOp,
            MockTransaction::SpiWrite(id, prefix, data) => Op::SpiWrite(*id, prefix@, data@),
            MockTransaction::SpiRead(id, prefix, data) => Op::SpiRead(*id, prefix@, data@),
            MockTransaction::SpiExec(id, subs) => Op::SpiExec(*id, subs_view(subs@)),
            MockTransaction::Busy(id, state) => Op::Busy(*id, *state),
            MockTransaction::Ready(id, state) => Op::Ready(*id, *state),
            MockTransaction::Reset(id, state) => Op::Reset(*id, *state),
            MockTransaction::Write(id, data) => Op::Write(*id, data@),
            MockTransaction::Transfer(id, outgoing, incoming) => Op::Transfer(
                *id,
                outgoing@,
                incoming@,
            ),
            MockTransaction::IsHigh(id, value) => Op::IsHigh(*id, *value),
            MockTransaction::IsLow(id, value) => Op::IsLow(*id, *value),
            MockTransaction::SetHigh(id) => Op::SetHigh(*id),
            MockTransaction::SetLow(id) => Op::SetLow(*id),
            MockTransaction::DelayMs(ms) => Op::DelayMs(*ms),
        }
    }
}

/// The operations of a sequence of records, as ghost values.
pub open spec fn ops_view(s: Seq<MockTransaction>) -> Seq<Op> {
    s.map_values(|t: MockTransaction| t@)
}

/// An owned copy of a byte sequence, so a queued expectation cannot be changed
/// retroactively through the caller's buffer.
pub fn clone_bytes(data: &Vec<u8>) -> (r: Vec<u8>)
    ensures
        r@ == data@,
{
    let mut out: Vec<u8> = Vec::new();
    let mut i: usize = 0;
    while i < data.len()
        invariant
            i <= data.len(),
            out@ == data@.take(i as int),
        decreases data.len() - i,
    {
        out.push(data[i]);
        proof {
            assert(out@ =~= data@.take(i as int + 1));
        }
        i = i + 1;
    }
    proof {
        assert(out@ =~= data@);
    }
    out
}

/// Byte-sequence equality.
pub fn bytes_eq(a: &Vec<u8>, b: &Vec<u8>) -> (r: bool)
    ensures
        r == (a@ == b@),
{
    if a.len() != b.len() {
        return false;
    }
    let mut i: usize = 0;
    while i < a.len()
        invariant
            i <= a.len(),
            a@.len() == b@.len(),
            forall|j: int| 0 <= j < i ==> a@[j] == b@[j],
        decreases a.len() - i,
    {
        if a[i] != b[i] {
            return false;
        }
        i = i + 1;
    }
    proof {
        assert(a@ =~= b@);
    }
    true
}

/// Structural equality of two sub-operations.
pub fn exec_eq(a: &MockExec, b: &MockExec) -> (r: bool)
    ensures
        r == (a@ == b@),
{
    match (a, b) {
        (MockExec::SpiWrite(x), MockExec::SpiWrite(y)) => bytes_eq(x, y),
        (MockExec::SpiRead(x), MockExec::SpiRead(y)) => bytes_eq(x, y),
        _ => false,
    }
}

/// Structural equality of two sub-operation lists.
pub fn exec_list_eq(a: &Vec<MockExec>, b: &Vec<MockExec>) -> (r: bool)
    ensures
        r == (subs_view(a@) == subs_view(b@)),
{
    if a.len() != b.len() {
        proof {
            assert(subs_view(a@).len() != subs_view(b@).len());
        }
        return false;
    }
    let mut i: usize = 0;
    while i < a.len()
        invariant
            i <= a.len(),
            a@.len() == b@.len(),
            forall|j: int| 0 <= j < i ==> a@[j]@ == b@[j]@,
        decreases a.len() - i,
    {
        if !exec_eq(&a[i], &b[i]) {
            proof {
                assert(subs_view(a@)[i as int] != subs_view(b@)[i as int]);
            }
            return false;
        }
        i = i + 1;
    }
    proof {
        assert(subs_view(a@) =~= subs_view(b@));
    }
    true
}

/// Structural equality of two operation records: same kind, same identity,
/// same payload.
pub fn trans_eq(a: &MockTransaction, b: &MockTransaction) -> (r: bool)
    ensures
        r == (a@ == b@),
{
    match (a, b) {
        (MockTransaction::NoOp, MockTransaction::NoOp) => true,
        (MockTransaction::SpiWrite(i1, p1, d1), MockTransaction::SpiWrite(i2, p2, d2)) => i1 == i2
            && bytes_eq(p1, p2) && bytes_eq(d1, d2),
        (MockTransaction::SpiRead(i1, p1, d1), MockTransaction::SpiRead(i2, p2, d2)) => i1 == i2
            && bytes_eq(p1, p2) && bytes_eq(d1, d2),
        (MockTransaction::SpiExec(i1, s1), MockTransaction::SpiExec(i2, s2)) => i1 == i2
            && exec_list_eq(s1, s2),
        (MockTransaction::Busy(i1, s1), MockTransaction::Busy(i2, s2)) => i1 == i2 && s1 == s2,
        (MockTransaction::Ready(i1, s1), MockTransaction::Ready(i2, s2)) => i1 == i2 && s1 == s2,
        (MockTransaction::Reset(i1, s1), MockTransaction::Reset(i2, s2)) => i1 == i2 && s1 == s2,
        (MockTransaction::Write(i1, d1), MockTransaction::Write(i2, d2)) => i1 == i2 && bytes_eq(
            d1,
            d2,
        ),
        (MockTransaction::Transfer(i1, o1, n1), MockTransaction::Transfer(i2, o2, n2)) => i1 == i2
            && bytes_eq(o1, o2) && bytes_eq(n1, n2),
        (MockTransaction::IsHigh(i1, v1), MockTransaction::IsHigh(i2, v2)) => i1 == i2 && v1 == v2,
        (MockTransaction::IsLow(i1, v1), MockTransaction::IsLow(i2, v2)) => i1 == i2 && v1 == v2,
        (MockTransaction::SetHigh(i1), MockTransaction::SetHigh(i2)) => i1 == i2,
        (MockTransaction::SetLow(i1), MockTransaction::SetLow(i2)) => i1 == i2,
        (MockTransaction::DelayMs(m1), MockTransaction::DelayMs(m2)) => m1 == m2,
        _ => false,
    }
}

/// Structural equality of two record sequences: same length and element-wise
/// equal. This is exactly the check that `verify` performs.
pub fn trans_list_eq(a: &Vec<MockTransaction>, b: &Vec<MockTransaction>) -> (r: bool)
    ensures
        r == (ops_view(a@) == ops_view(b@)),
{
    if a.len() != b.len() {
        proof {
            assert(ops_view(a@).len() != ops_view(b@).len());
        }
        return false;
    }
    let mut i: usize = 0;
    while i < a.len()
        invariant
            i <= a.len(),
            a@.len() == b@.len(),
            forall|j: int| 0 <= j < i ==> a@[j]@ == b@[j]@,
        decreases a.len() - i,
    {
        if !trans_eq(&a[i], &b[i]) {
            proof {
                assert(ops_view(a@)[i as int] != ops_view(b@)[i as int]);
            }
            return false;
        }
        i = i + 1;
    }
    proof {
        assert(ops_view(a@) =~= ops_view(b@));
    }
    true
}

} // verus!
