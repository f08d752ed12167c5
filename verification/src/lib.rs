//! Escrow-backed parimutuel wagering markets settled against an external
//! oracle, together with the oracle question/answer registry that feeds them
//! and a flat payment fee splitter.
//!
//! Every market variant follows one settlement pattern: stakes are accepted
//! into a per-side pool net of a basis-point fee, a resolution state machine
//! moves the market to a terminal state driven by an oracle answer, and each
//! participant claims a parimutuel payout (or a refund) at most once.
//!
//! The library holds the state-transition and arithmetic logic only. Records
//! are handed in and out as plain values; fetching, persisting and value
//! transfer are the host's responsibility, as is the clock: operations that
//! depend on time take the current time as an argument.

pub mod text;
pub mod fee;
pub mod payout;
pub mod binary;
pub mod oracle;
pub mod multi;
pub mod range;
pub mod series;
pub mod conditional;
pub mod facilitator;
