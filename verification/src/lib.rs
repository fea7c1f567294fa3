//! A call-sequence verification engine for code that drives peripheral-style
//! interfaces (serial buses, digital lines, delays) without real hardware.
//!
//! A test pre-loads an ordered list of expected operations into a [`Mock`];
//! handles ([`Spi`], [`Pin`], [`Delay`]) derived from the mock then intercept
//! operation calls, hand back canned results, and record what actually
//! happened. At the end, [`Mock::finalise`] compares the recorded sequence
//! against the expected one.

mod model;
mod transaction;
mod mock;
mod laws;

pub use mock::{Inner, Mock, MockView, Spi, Pin, Delay};
pub use laws::{observed_trace, op_identity, call_identity};
pub use laws::{lemma_replay, lemma_trace_index, lemma_cursor_monotonic};
pub use laws::{lemma_matching_run_verifies, lemma_divergent_run_fails};
pub use laws::{lemma_identity_isolation, lemma_identity_mismatch_fails};
pub use laws::{lemma_read_round_trip, lemma_transfer_round_trip};

pub use transaction::{Id, Transaction, MockExec, MockTransaction};
pub use transaction::{subs_view, requests_view, ops_view, clone_bytes, bytes_eq};
pub use transaction::{exec_eq, exec_list_eq, trans_eq, trans_list_eq};
pub use model::{LedgerView, Op, SubOp, HandleCall};
pub use model::{peek, advanced, step, replay, observed};
pub use model::{read_payload, transfer_payload, busy_level, ready_level};
pub use model::{is_high_value, is_low_value, filled_sub, filled_subs};
pub use model::PinState;
