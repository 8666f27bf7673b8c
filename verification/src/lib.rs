//! Reusable consensus algorithms with machine-checked contracts.
//!
//! The centerpiece is a two-phase-commit atomic commitment engine: a pure
//! state machine that consumes events (delivered messages, local votes,
//! timer expirations) together with a persistent context and returns the
//! ordered list of actions the embedder must apply. All protocol logic is
//! specified by `requires`/`ensures` contracts and verified.

use vstd::prelude::*;

mod algorithm;
mod error;
mod links;
mod message;
mod process;
mod time;
pub mod two_phase_commit;

pub use algorithm::Adapt;
pub use algorithm::Algorithm;
pub use algorithm::IntoAlgorithm;
pub use algorithm::Value;
pub use error::AlgorithmError;
pub use error::InternalError;
pub use error::InvalidStateError;
pub use links::Receiver;
pub use links::Sender;
pub use message::Message;
pub use process::Process;
pub use time::FixedTimeSource;
pub use time::Time;
pub use time::TimePoint;
pub use time::TimeSource;

verus! {

} // verus!
