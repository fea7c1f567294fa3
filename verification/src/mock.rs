//! The ledger, the controller, and the peripheral handles.
//!
//! [`Inner`] is the ledger: expected records, actual records, and a cursor.
//! [`Mock`] owns one ledger and mints handle identities. [`Spi`], [`Pin`] and
//! [`Delay`] are cheap handles holding only their identity; every operation
//! they intercept takes the owning [`Mock`] by `&mut` and is one atomic
//! ledger transaction, described by [`crate::model::step`].

use vstd::prelude::*;

use crate::model::{
    LedgerView, Op, PinState, HandleCall, peek, advanced, step, observed, read_payload,
    transfer_payload, busy_level, ready_level, is_high_value, is_low_value, filled_sub,
};
use crate::transaction::{
    Id, Transaction, MockExec, MockTransaction, subs_view, requests_view, ops_view, clone_bytes,
    trans_list_eq,
};

verus! {

/// The ledger: the expected sequence, the append-only actual sequence, and
/// the cursor. The cursor always equals the number of recorded operations.
pub struct Inner {
    index: usize,
    expected: Vec<MockTransaction>,
    actual: Vec<MockTransaction>,
}

impl View for Inner {
    type V = LedgerView;

    closed spec fn view(&self) -> LedgerView {
        LedgerView {
            cursor: self.index as nat,
            expected: ops_view(self.expected@),
            actual: ops_view(self.actual@),
        }
    }
}

impl Inner {
    /// The cursor advances by exactly one per completed operation, so it
    /// always equals the length of the actual sequence.
    pub open spec fn wf(&self) -> bool {
        self@.cursor == self@.actual.len()
    }

    /// A fresh, empty ledger.
    pub fn empty() -> (r: Self)
        ensures
            r.wf(),
            r@.cursor == 0,
            r@.expected == Seq::<Op>::empty(),
            r@.actual == Seq::<Op>::empty(),
    {
        let r = Inner { index: 0, expected: Vec::new(), actual: Vec::new() };
        proof {
            assert(r@.expected =~= Seq::<Op>::empty());
            assert(r@.actual =~= Seq::<Op>::empty());
        }
        r
    }

    /// Replace the expected sequence, reset the cursor, clear the record.
    pub fn load(&mut self, expected: Vec<MockTransaction>)
        ensures
            final(self).wf(),
            final(self)@.cursor == 0,
            final(self)@.expected == ops_view(expected@),
            final(self)@.actual == Seq::<Op>::empty(),
    {
        self.index = 0;
        self.expected = expected;
        self.actual = Vec::new();
        proof {
            assert(self@.actual =~= Seq::<Op>::empty());
        }
    }

    /// Append a record of what actually happened and advance the cursor by
    /// exactly one. The expected sequence is never touched.
    pub fn record_and_advance(&mut self, record: MockTransaction)
        requires
            old(self).wf(),
        ensures
            final(self).wf(),
            final(self)@ == advanced(old(self)@, record@),
    {
        self.actual.push(record);
        self.index = self.actual.len();
        proof {
            assert(self@.actual =~= old(self)@.actual.push(record@));
            assert(self@ =~= advanced(old(self)@, record@));
        }
    }

    /// The expectation at the cursor, if any. Read-only: the cursor does not
    /// move.
    pub fn peek_expected(&self) -> (r: Option<&MockTransaction>)
        ensures
            match r {
                Some(t) => peek(self@) == Some(t@),
                None => peek(self@) is None,
            },
    {
        if self.index < self.expected.len() {
            Some(&self.expected[self.index])
        } else {
            None
        }
    }

    /// Structural comparison of the expected and actual sequences: true
    /// exactly when they have the same length and every element matches in
    /// kind, identity and payload.
    pub fn finalise(&self) -> (ok: bool)
        ensures
            ok == (self@.expected == self@.actual),
    {
        trans_list_eq(&self.expected, &self.actual)
    }
}

/// Abstract state of a [`Mock`]: its ledger and the next handle identity.
#[verifier::ext_equal]
pub struct MockView {
    pub count: Id,
    pub ledger: LedgerView,
}

/// The controller: owns the ledger and mints unique handle identities.
pub struct Mock {
    inner: Inner,
    count: Id,
}

impl View for Mock {
    type V = MockView;

    closed spec fn view(&self) -> MockView {
        MockView { count: self.count, ledger: self.inner@ }
    }
}

impl Mock {
    /// Well-formedness of the controller's ledger.
    pub open spec fn wf(&self) -> bool {
        self@.ledger.cursor == self@.ledger.actual.len()
    }

    /// Create a new mock controller with an empty ledger.
    pub fn new() -> (r: Self)
        ensures
            r.wf(),
            r@.count == 0,
            r@.ledger.cursor == 0,
            r@.ledger.expected == Seq::<Op>::empty(),
            r@.ledger.actual == Seq::<Op>::empty(),
    {
        Mock { inner: Inner::empty(), count: 0 }
    }

    /// Set expectations: replaces the expected sequence, resets the cursor to
    /// zero and clears the actual sequence. The identity counter is kept, so
    /// existing handles stay valid.
    pub fn expect(&mut self, transactions: Vec<MockTransaction>)
        ensures
            final(self).wf(),
            final(self)@.count == old(self)@.count,
            final(self)@.ledger.cursor == 0,
            final(self)@.ledger.expected == ops_view(transactions@),
            final(self)@.ledger.actual == Seq::<Op>::empty(),
    {
        self.inner.load(transactions);
    }

    /// Derive a bus handle with the next fresh identity.
    pub fn spi(&mut self) -> (r: Spi)
        requires
            old(self)@.count < Id::MAX,
        ensures
            final(self).wf() == old(self).wf(),
            r@ == old(self)@.count,
            final(self)@.count == old(self)@.count + 1,
            final(self)@.ledger == old(self)@.ledger,
    {
        let id = self.count;
        self.count = self.count + 1;
        Spi { id }
    }

    /// Derive a digital-line handle with the next fresh identity.
    pub fn pin(&mut self) -> (r: Pin)
        requires
            old(self)@.count < Id::MAX,
        ensures
            final(self).wf() == old(self).wf(),
            r@ == old(self)@.count,
            final(self)@.count == old(self)@.count + 1,
            final(self)@.ledger == old(self)@.ledger,
    {
        let id = self.count;
        self.count = self.count + 1;
        Pin { id }
    }

    /// Derive a delay handle with the next fresh identity.
    pub fn delay(&mut self) -> (r: Delay)
        requires
            old(self)@.count < Id::MAX,
        ensures
            final(self).wf() == old(self).wf(),
            r@ == old(self)@.count,
            final(self)@.count == old(self)@.count + 1,
            final(self)@.ledger == old(self)@.ledger,
    {
        let id = self.count;
        self.count = self.count + 1;
        Delay { id }
    }

    /// Evaluate the expectations: true exactly when the recorded sequence
    /// equals the expected one, structurally. A mismatch in length or in any
    /// element (kind, identity or payload) yields false.
    pub fn finalise(&self) -> (ok: bool)
        ensures
            ok == (self@.ledger.expected == self@.ledger.actual),
    {
        self.inner.finalise()
    }
}

/// A bus handle: an identity plus access to the shared ledger through the
/// owning [`Mock`].
#[derive(Clone, Copy)]
pub struct Spi {
    id: Id,
}

impl View for Spi {
    type V = Id;

    closed spec fn view(&self) -> Id {
        self.id
    }
}

/// A digital-line handle.
#[derive(Clone, Copy)]
pub struct Pin {
    id: Id,
}

impl View for Pin {
    type V = Id;

    closed spec fn view(&self) -> Id {
        self.id
    }
}

/// A timed-wait handle.
#[derive(Clone, Copy)]
pub struct Delay {
    id: Id,
}

impl View for Delay {
    type V = Id;

    closed spec fn view(&self) -> Id {
        self.id
    }
}

impl Spi {
    /// Prefixed bus read: fill `data` with the canned payload of a read
    /// expectation queued at the cursor for this handle (when the lengths
    /// match), record what was handed back, advance the cursor. Never fails.
    pub fn spi_read(&self, mock: &mut Mock, prefix: &Vec<u8>, data: &mut Vec<u8>) -> (r: Result<
        (),
        (),
    >)
        requires
            old(mock).wf(),
        ensures
            final(mock).wf(),
            r == Ok::<(), ()>(()),
            final(data)@ == read_payload(old(mock)@.ledger, self@, old(data)@),
            final(mock)@.count == old(mock)@.count,
            final(mock)@.ledger == step(
                old(mock)@.ledger,
                (HandleCall::SpiRead { id: self@, prefix: prefix@, buf: old(data)@ }),
            ),
    {
        let ghost l0 = mock@.ledger;
        match mock.inner.peek_expected() {
            Some(t) => match t {
                MockTransaction::SpiRead(eid, _expected_prefix, incoming) => {
                    if *eid == self.id && incoming.len() == data.len() {
                        *data = clone_bytes(incoming);
                    }
                },
                _ => {},
            },
            None => {},
        }
        let record = MockTransaction::SpiRead(self.id, clone_bytes(prefix), clone_bytes(data));
        proof {
            assert(record@ == observed(
                l0,
                (HandleCall::SpiRead { id: self@, prefix: prefix@, buf: old(data)@ }),
            ));
        }
        mock.inner.record_and_advance(record);
        Ok(())
    }

    /// Prefixed bus write: record the call, advance the cursor. Never fails.
    pub fn spi_write(&self, mock: &mut Mock, prefix: &Vec<u8>, data: &Vec<u8>) -> (r: Result<
        (),
        (),
    >)
        requires
            old(mock).wf(),
        ensures
            final(mock).wf(),
            r == Ok::<(), ()>(()),
            final(mock)@.count == old(mock)@.count,
            final(mock)@.ledger == step(
                old(mock)@.ledger,
                (HandleCall::SpiWrite { id: self@, prefix: prefix@, data: data@ }),
            ),
    {
        let record = MockTransaction::SpiWrite(self.id, clone_bytes(prefix), clone_bytes(data));
        mock.inner.record_and_advance(record);
        Ok(())
    }

    /// Composite bus call: fill each read sub-request from the positional
    /// sub-operation of a composite expectation queued for this handle, record
    /// the whole call as one record (sub-requests as presented), and advance
    /// the cursor exactly once for the entire call. Never fails.
    pub fn spi_exec(&self, mock: &mut Mock, transactions: &mut Vec<Transaction>) -> (r: Result<
        (),
        (),
    >)
        requires
            old(mock).wf(),
        ensures
            final(mock).wf(),
            r == Ok::<(), ()>(()),
            final(transactions)@.len() == old(transactions)@.len(),
            forall|i: int|
                0 <= i < final(transactions)@.len() ==> final(transactions)@[i]@ == filled_sub(
                    old(mock)@.ledger,
                    self@,
                    i,
                    old(transactions)@[i]@,
                ),
            final(mock)@.count == old(mock)@.count,
            final(mock)@.ledger == step(
                old(mock)@.ledger,
                (HandleCall::SpiExec { id: self@, subs: requests_view(old(transactions)@) }),
            ),
    {
        let ghost l0 = mock@.ledger;
        let ghost ts0 = transactions@;

        // the sub-requests as presented, copied for the record
        let mut recorded: Vec<MockExec> = Vec::new();
        let mut i: usize = 0;
        while i < transactions.len()
            invariant
                i <= transactions.len(),
                transactions@ == ts0,
                recorded@.len() == i,
                forall|j: int| 0 <= j < i ==> recorded@[j]@ == transactions@[j]@,
            decreases transactions.len() - i,
        {
            let sub = MockExec::from(&transactions[i]);
            recorded.push(sub);
            i = i + 1;
        }
        proof {
            assert(subs_view(recorded@) =~= requests_view(ts0));
        }

        // canned read data copied in from a matching composite expectation
        let mut filled: Vec<Transaction> = Vec::new();
        let mut k: usize = 0;
        while k < transactions.len()
            invariant
                k <= transactions.len(),
                transactions@ == ts0,
                mock@.ledger == l0,
                filled@.len() == k,
                forall|j: int|
                    0 <= j < k ==> filled@[j]@ == filled_sub(l0, self@, j, transactions@[j]@),
            decreases transactions.len() - k,
        {
            let out: Transaction = match &transactions[k] {
                Transaction::Read(buf) => {
                    match mock.inner.peek_expected() {
                        Some(t) => match t {
                            MockTransaction::SpiExec(eid, subs) => {
                                if *eid == self.id && k < subs.len() {
                                    proof {
                                        assert(subs_view(subs@)[k as int] == subs@[k as int]@);
                                    }
                                    match &subs[k] {
                                        MockExec::SpiRead(canned) => {
                                            if canned.len() == buf.len() {
                                                Transaction::Read(clone_bytes(canned))
                                            } else {
                                                Transaction::Read(clone_bytes(buf))
                                            }
                                        },
                                        MockExec::SpiWrite(_) => Transaction::Read(
                                            clone_bytes(buf),
                                        ),
                                    }
                                } else {
                                    Transaction::Read(clone_bytes(buf))
                                }
                            },
                            _ => Transaction::Read(clone_bytes(buf)),
                        },
                        None => Transaction::Read(clone_bytes(buf)),
                    }
                },
                Transaction::Write(data) => Transaction::Write(clone_bytes(data)),
            };
            filled.push(out);
            k = k + 1;
        }
        *transactions = filled;

        let record = MockTransaction::SpiExec(self.id, recorded);
        proof {
            assert(record@ == observed(
                l0,
                (HandleCall::SpiExec { id: self@, subs: requests_view(ts0) }),
            ));
        }
        mock.inner.record_and_advance(record);
        Ok(())
    }

    /// Busy-line query: hand back the canned level of a busy expectation
    /// queued for this handle, else low; record what was handed back.
    pub fn get_busy(&self, mock: &mut Mock) -> (r: Result<PinState, ()>)
        requires
            old(mock).wf(),
        ensures
            final(mock).wf(),
            r == Ok::<PinState, ()>(busy_level(old(mock)@.ledger, self@)),
            final(mock)@.count == old(mock)@.count,
            final(mock)@.ledger == step(old(mock)@.ledger, (HandleCall::GetBusy { id: self@ })),
    {
        let state = match mock.inner.peek_expected() {
            Some(t) => match t {
                MockTransaction::Busy(eid, s) => if *eid == self.id {
                    *s
                } else {
                    PinState::Low
                },
                _ => PinState::Low,
            },
            None => PinState::Low,
        };
        mock.inner.record_and_advance(MockTransaction::Busy(self.id, state));
        Ok(state)
    }

    /// Ready-line query: as [`Self::get_busy`], for ready expectations.
    pub fn get_ready(&self, mock: &mut Mock) -> (r: Result<PinState, ()>)
        requires
            old(mock).wf(),
        ensures
            final(mock).wf(),
            r == Ok::<PinState, ()>(ready_level(old(mock)@.ledger, self@)),
            final(mock)@.count == old(mock)@.count,
            final(mock)@.ledger == step(old(mock)@.ledger, (HandleCall::GetReady { id: self@ })),
    {
        let state = match mock.inner.peek_expected() {
            Some(t) => match t {
                MockTransaction::Ready(eid, s) => if *eid == self.id {
                    *s
                } else {
                    PinState::Low
                },
                _ => PinState::Low,
            },
            None => PinState::Low,
        };
        mock.inner.record_and_advance(MockTransaction::Ready(self.id, state));
        Ok(state)
    }

    /// Reset-line set: record the requested level, advance the cursor.
    pub fn set_reset(&self, mock: &mut Mock, state: PinState) -> (r: Result<(), ()>)
        requires
            old(mock).wf(),
        ensures
            final(mock).wf(),
            r == Ok::<(), ()>(()),
            final(mock)@.count == old(mock)@.count,
            final(mock)@.ledger == step(
                old(mock)@.ledger,
                (HandleCall::SetReset { id: self@, state: state }),
            ),
    {
        mock.inner.record_and_advance(MockTransaction::Reset(self.id, state));
        Ok(())
    }

    /// Timed wait through the bus handle: recorded, never slept. A delay
    /// record carries no identity.
    pub fn delay_ms(&self, mock: &mut Mock, ms: u32)
        requires
            old(mock).wf(),
        ensures
            final(mock).wf(),
            final(mock)@.count == old(mock)@.count,
            final(mock)@.ledger == step(old(mock)@.ledger, (HandleCall::DelayMs { ms: ms })),
    {
        mock.inner.record_and_advance(MockTransaction::DelayMs(ms));
    }

    /// Generic transfer: overwrite the buffer with the canned incoming bytes
    /// of a transfer expectation queued for this handle (when the lengths
    /// match), record outgoing and incoming bytes, advance the cursor.
    pub fn transfer(&self, mock: &mut Mock, data: &mut Vec<u8>) -> (r: Result<(), ()>)
        requires
            old(mock).wf(),
        ensures
            final(mock).wf(),
            r == Ok::<(), ()>(()),
            final(data)@ == transfer_payload(old(mock)@.ledger, self@, old(data)@),
            final(mock)@.count == old(mock)@.count,
            final(mock)@.ledger == step(
                old(mock)@.ledger,
                (HandleCall::Transfer { id: self@, buf: old(data)@ }),
            ),
    {
        let ghost l0 = mock@.ledger;
        let outgoing = clone_bytes(data);
        match mock.inner.peek_expected() {
            Some(t) => match t {
                MockTransaction::Transfer(eid, _expected_outgoing, incoming) => {
                    if *eid == self.id && incoming.len() == data.len() {
                        *data = clone_bytes(incoming);
                    }
                },
                _ => {},
            },
            None => {},
        }
        let record = MockTransaction::Transfer(self.id, outgoing, clone_bytes(data));
        proof {
            assert(record@ == observed(l0, (HandleCall::Transfer { id: self@, buf: old(data)@ })));
        }
        mock.inner.record_and_advance(record);
        Ok(())
    }

    /// Generic write: record the outgoing bytes, advance the cursor.
    pub fn write(&self, mock: &mut Mock, data: &Vec<u8>) -> (r: Result<(), ()>)
        requires
            old(mock).wf(),
        ensures
            final(mock).wf(),
            r == Ok::<(), ()>(()),
            final(mock)@.count == old(mock)@.count,
            final(mock)@.ledger == step(
                old(mock)@.ledger,
                (HandleCall::Write { id: self@, data: data@ }),
            ),
    {
        mock.inner.record_and_advance(MockTransaction::Write(self.id, clone_bytes(data)));
        Ok(())
    }
}

impl Pin {
    /// Digital query: hand back the canned value of an is-high expectation
    /// queued for this handle, else false; record what was handed back.
    pub fn is_high(&self, mock: &mut Mock) -> (r: Result<bool, ()>)
        requires
            old(mock).wf(),
        ensures
            final(mock).wf(),
            r == Ok::<bool, ()>(is_high_value(old(mock)@.ledger, self@)),
            final(mock)@.count == old(mock)@.count,
            final(mock)@.ledger == step(old(mock)@.ledger, (HandleCall::IsHigh { id: self@ })),
    {
        let value = match mock.inner.peek_expected() {
            Some(t) => match t {
                MockTransaction::IsHigh(eid, v) => *eid == self.id && *v,
                _ => false,
            },
            None => false,
        };
        mock.inner.record_and_advance(MockTransaction::IsHigh(self.id, value));
        Ok(value)
    }

    /// Digital query: as [`Self::is_high`], for is-low expectations.
    pub fn is_low(&self, mock: &mut Mock) -> (r: Result<bool, ()>)
        requires
            old(mock).wf(),
        ensures
            final(mock).wf(),
            r == Ok::<bool, ()>(is_low_value(old(mock)@.ledger, self@)),
            final(mock)@.count == old(mock)@.count,
            final(mock)@.ledger == step(old(mock)@.ledger, (HandleCall::IsLow { id: self@ })),
    {
        let value = match mock.inner.peek_expected() {
            Some(t) => match t {
                MockTransaction::IsLow(eid, v) => *eid == self.id && *v,
                _ => false,
            },
            None => false,
        };
        mock.inner.record_and_advance(MockTransaction::IsLow(self.id, value));
        Ok(value)
    }

    /// Digital set: record that this handle was driven high.
    pub fn set_high(&self, mock: &mut Mock) -> (r: Result<(), ()>)
        requires
            old(mock).wf(),
        ensures
            final(mock).wf(),
            r == Ok::<(), ()>(()),
            final(mock)@.count == old(mock)@.count,
            final(mock)@.ledger == step(old(mock)@.ledger, (HandleCall::SetHigh { id: self@ })),
    {
        mock.inner.record_and_advance(MockTransaction::SetHigh(self.id));
        Ok(())
    }

    /// Digital set: record that this handle was driven low.
    pub fn set_low(&self, mock: &mut Mock) -> (r: Result<(), ()>)
        requires
            old(mock).wf(),
        ensures
            final(mock).wf(),
            r == Ok::<(), ()>(()),
            final(mock)@.count == old(mock)@.count,
            final(mock)@.ledger == step(old(mock)@.ledger, (HandleCall::SetLow { id: self@ })),
    {
        mock.inner.record_and_advance(MockTransaction::SetLow(self.id));
        Ok(())
    }
}

impl Delay {
    /// Timed wait: recorded, never slept. A delay record carries no identity.
    pub fn delay_ms(&self, mock: &mut Mock, ms: u32)
        requires
            old(mock).wf(),
        ensures
            final(mock).wf(),
            final(mock)@.count == old(mock)@.count,
            final(mock)@.ledger == step(old(mock)@.ledger, (HandleCall::DelayMs { ms: ms })),
    {
        mock.inner.record_and_advance(MockTransaction::DelayMs(ms));
    }
}

impl MockTransaction {
    /// Expectation: a prefixed bus write by this handle.
    pub fn spi_write(spi: &Spi, prefix: &Vec<u8>, outgoing: &Vec<u8>) -> (r: Self)
        ensures
            r@ == Op::SpiWrite(spi@, prefix@, outgoing@),
    {
        MockTransaction::SpiWrite(spi.id, clone_bytes(prefix), clone_bytes(outgoing))
    }

    /// Expectation: a prefixed bus read by this handle, handing back
    /// `incoming`.
    pub fn spi_read(spi: &Spi, prefix: &Vec<u8>, incoming: &Vec<u8>) -> (r: Self)
        ensures
            r@ == Op::SpiRead(spi@, prefix@, incoming@),
    {
        MockTransaction::SpiRead(spi.id, clone_bytes(prefix), clone_bytes(incoming))
    }

    /// Expectation: a busy query on this handle, handing back `value`.
    pub fn busy(spi: &Spi, value: PinState) -> (r: Self)
        ensures
            r@ == Op::Busy(spi@, value),
    {
        MockTransaction::Busy(spi.id, value)
    }

    /// Expectation: a ready query on this handle, handing back `value`.
    pub fn ready(spi: &Spi, value: PinState) -> (r: Self)
        ensures
            r@ == Op::Ready(spi@, value),
    {
        MockTransaction::Ready(spi.id, value)
    }

    /// Expectation: a reset-line set on this handle to `value`.
    pub fn reset(spi: &Spi, value: PinState) -> (r: Self)
        ensures
            r@ == Op::Reset(spi@, value),
    {
        MockTransaction::Reset(spi.id, value)
    }

    /// Expectation: a timed wait of `v` milliseconds, tied to no identity.
    pub fn delay_ms(v: u32) -> (r: Self)
        ensures
            r@ == Op::DelayMs(v),
    {
        MockTransaction::DelayMs(v)
    }

    /// Expectation: a generic write of `outgoing` by this handle.
    pub fn write(spi: &Spi, outgoing: &Vec<u8>) -> (r: Self)
        ensures
            r@ == Op::Write(spi@, outgoing@),
    {
        MockTransaction::Write(spi.id, clone_bytes(outgoing))
    }

    /// Expectation: a transfer by this handle sending `outgoing` and handing
    /// back `incoming`.
    pub fn transfer(spi: &Spi, outgoing: &Vec<u8>, incoming: &Vec<u8>) -> (r: Self)
        ensures
            r@ == Op::Transfer(spi@, outgoing@, incoming@),
    {
        MockTransaction::Transfer(spi.id, clone_bytes(outgoing), clone_bytes(incoming))
    }

    /// Expectation: an is-high query on this handle, handing back `value`.
    pub fn is_high(pin: &Pin, value: bool) -> (r: Self)
        ensures
            r@ == Op::IsHigh(pin@, value),
    {
        MockTransaction::IsHigh(pin.id, value)
    }

    /// Expectation: an is-low query on this handle, handing back `value`.
    pub fn is_low(pin: &Pin, value: bool) -> (r: Self)
        ensures
            r@ == Op::IsLow(pin@, value),
    {
        MockTransaction::IsLow(pin.id, value)
    }

    /// Expectation: this handle driven high.
    pub fn set_high(pin: &Pin) -> (r: Self)
        ensures
            r@ == Op::SetHigh(pin@),
    {
        MockTransaction::SetHigh(pin.id)
    }

    /// Expectation: this handle driven low.
    pub fn set_low(pin: &Pin) -> (r: Self)
        ensures
            r@ == Op::SetLow(pin@),
    {
        MockTransaction::SetLow(pin.id)
    }
}

} // verus!
