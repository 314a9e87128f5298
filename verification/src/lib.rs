//! A hash time-locked escrow: funds locked under a SHA-256 hashlock and a
//! deadline are released to the recipient who reveals the preimage in time, or
//! returned to the sender once the deadline has passed.
//!
//! The swap rules are plain functions over a mathematical model of the
//! registry; the executable contract is proved to follow them step by step.
//! Authorization, the clock, the asset ledger and the event transport stay
//! with the host, which reports to each step and carries out what it answers.

pub mod bytes;
pub mod contract;
pub mod error;
pub mod host;
pub mod laws;
pub mod preimage;
pub mod registry;
pub mod rules;
pub mod swap;

pub use contract::HTLCContract;
pub use error::HtlcError;
pub use host::{Action, Direction, HostReport, LedgerReply, SwapEvent, Transfer};
pub use registry::SwapRegistry;
pub use swap::{DataKey, HTLCSwap, SwapStatus};
