//! Advisory process locks held through a marker file that names the owning
//! process.
//!
//! The library holds the rules of the lock: how a marker's text is read, how
//! the state of a lock follows from that text and from a liveness probe, what
//! an acquisition does with each state, and what a release reports. The
//! filesystem, the process table and the diagnostic sink are driven by the
//! caller: `inspect_next` and `acquire_next` hand it each step in order, and
//! it answers with what it observed.

pub mod acquire;
pub mod lock;
pub mod marker;
pub mod model;
pub mod query;

pub use acquire::{acquire_next, AcquireAction, AcquireEvent};
pub use lock::{
    examine_marker, judge_probe, own_marker, plan_acquire, Examined, IoFault, Liveness, LockError,
    LockFailure, LockState, PidFile,
};
pub use query::{inspect_next, InspectAction, InspectEvent};
pub use marker::{is_space_char, marker_text, parse_pid};
