//! The lock's rules: how a marker file's state is classified, what querying
//! and acquiring do with each state, and what a release reports.
//!
//! Each step takes what the caller observed (what reading the marker gave,
//! what the liveness probe answered, whether a write succeeded) and decides
//! the answer or the next step. The `model` module composes the steps over a
//! model of the filesystem, in the order in which the caller performs them.

use vstd::prelude::*;
use crate::marker::{decimal, marker_text, parse_pid, pid_of};

verus! {

/// An I/O failure as the caller observed it.
#[derive(Clone, Copy, Debug, PartialEq, Eq, Structural)]
pub enum IoFault {
    /// The path, or the process, does not exist.
    NotFound,
    /// What was read is not text.
    InvalidData,
    /// Any other failure, with the operating system's error code.
    Os(i32),
    /// Any other failure without an error code.
    Other,
}

/// What probing a process identifier answered.
#[derive(Clone, Copy, Debug, PartialEq, Eq, Structural)]
pub enum Liveness {
    /// The process exists.
    Alive,
    /// No process has the identifier.
    Gone,
    /// The probe was refused for want of permission.
    Denied,
    /// The probe failed otherwise.
    Failed(IoFault),
}

/// The state of the lock at a path.
#[derive(Clone, Copy, Debug, PartialEq, Eq, Structural)]
pub enum LockState {
    /// No marker file.
    Absent,
    /// A marker file whose content names no process.
    Malformed,
    /// A marker file naming a live process.
    Held(i32),
    /// A marker file naming a process that is gone.
    Stale(i32),
    /// The state could not be determined.
    Unknown(IoFault),
}

/// What reading the marker settles: the state itself, or the process whose
/// liveness decides it.
#[derive(Clone, Copy, Debug, PartialEq, Eq, Structural)]
pub enum Examined {
    Settled(LockState),
    Probe(i32),
}

/// Why an acquisition failed.
#[derive(Clone, Debug, PartialEq, Eq)]
pub enum LockError {
    /// A live process holds the lock at the path, which the error carries.
    InUse(String),
    /// The caller's own process identifier is not positive.
    BadOwnPid(i32),
    /// An I/O failure, passed on as it came.
    Io(IoFault),
}

/// An acquisition failure with the path as a sequence of characters.
pub enum LockFailure {
    InUse(Seq<char>),
    BadOwnPid(i32),
    Io(IoFault),
}

impl View for LockError {
    type V = LockFailure;

    open spec fn view(&self) -> LockFailure {
        match self {
            LockError::InUse(p) => LockFailure::InUse(p@),
            LockError::BadOwnPid(pid) => LockFailure::BadOwnPid(*pid),
            LockError::Io(f) => LockFailure::Io(*f),
        }
    }
}

/// A lock held by this process: the path of its marker file.
#[derive(Debug)]
pub struct PidFile {
    path: String,
}

pub open spec fn read_view(read: Result<Vec<char>, IoFault>) -> Result<Seq<char>, IoFault> {
    match read {
        Ok(t) => Ok(t@),
        Err(f) => Err(f),
    }
}

/// What reading the marker settles. A missing file is no lock; content that
/// is not text, or names no process, is malformed; other read failures leave
/// the state unknown.
pub open spec fn examined(read: Result<Seq<char>, IoFault>) -> Examined {
    match read {
        Err(IoFault::NotFound) => Examined::Settled(LockState::Absent),
        Err(IoFault::InvalidData) => Examined::Settled(LockState::Malformed),
        Err(f) => Examined::Settled(LockState::Unknown(f)),
        Ok(t) => match pid_of(t) {
            Some(p) => Examined::Probe(p as i32),
            None => Examined::Settled(LockState::Malformed),
        },
    }
}

/// The state that a probe of the named process decides. A probe that finds
/// no such process, or is refused for want of permission, counts as a
/// process that is gone.
pub open spec fn judged(pid: i32, live: Liveness) -> LockState {
    match live {
        Liveness::Alive => LockState::Held(pid),
        Liveness::Gone => LockState::Stale(pid),
        Liveness::Denied => LockState::Stale(pid),
        Liveness::Failed(IoFault::NotFound) => LockState::Stale(pid),
        Liveness::Failed(f) => LockState::Unknown(f),
    }
}

/// Whether a query reports the lock as held, or fails.
pub open spec fn locked(state: LockState) -> Result<bool, IoFault> {
    match state {
        LockState::Held(_) => Ok(true),
        LockState::Unknown(f) => Err(f),
        _ => Ok(false),
    }
}

/// What an acquisition at `path` does with the state found there (`None`
/// where no file exists): refuse, or go on, first removing the old marker
/// where the result is `Ok(true)`.
pub open spec fn acquire_plan(path: Seq<char>, existing: Option<LockState>) -> Result<bool, LockFailure> {
    match existing {
        None => Ok(false),
        Some(LockState::Held(_)) => Err(LockFailure::InUse(path)),
        Some(LockState::Unknown(f)) => Err(LockFailure::Io(f)),
        Some(_) => Ok(true),
    }
}

/// The marker text that an acquisition writes for the caller's own process.
pub open spec fn own_marker_spec(pid: i32) -> Result<Seq<char>, LockFailure> {
    if pid > 0 {
        Ok(decimal(pid as nat))
    } else {
        Err(LockFailure::BadOwnPid(pid))
    }
}

/// Decides what reading the marker settles.
pub fn examine_marker(read: &Result<Vec<char>, IoFault>) -> (r: Examined)
    ensures
        r == examined(read_view(*read)),
{
    match read {
        Ok(t) => match parse_pid(t.as_slice()) {
            Some(p) => Examined::Probe(p),
            None => Examined::Settled(LockState::Malformed),
        },
        Err(IoFault::NotFound) => Examined::Settled(LockState::Absent),
        Err(IoFault::InvalidData) => Examined::Settled(LockState::Malformed),
        Err(f) => Examined::Settled(LockState::Unknown(*f)),
    }
}

/// Decides the state from the probe of the process that the marker names.
pub fn judge_probe(pid: i32, live: Liveness) -> (r: LockState)
    ensures
        r == judged(pid, live),
{
    match live {
        Liveness::Alive => LockState::Held(pid),
        Liveness::Gone => LockState::Stale(pid),
        Liveness::Denied => LockState::Stale(pid),
        Liveness::Failed(IoFault::NotFound) => LockState::Stale(pid),
        Liveness::Failed(f) => LockState::Unknown(f),
    }
}

impl LockState {
    /// Whether inspecting the lock removes the marker file: it does so for a
    /// stale marker, and for nothing else.
    pub fn removed_by_query(&self) -> (r: bool)
        ensures
            r == (*self is Stale),
    {
        match self {
            LockState::Stale(_) => true,
            _ => false,
        }
    }
}

/// Decides what an acquisition does with what it found at the path.
pub fn plan_acquire(path: &String, existing: Option<LockState>) -> (r: Result<bool, LockError>)
    ensures
        match r {
            Ok(b) => acquire_plan(path@, existing) == Ok::<bool, LockFailure>(b),
            Err(e) => acquire_plan(path@, existing) == Err::<bool, LockFailure>(e@),
        },
{
    match existing {
        None => Ok(false),
        Some(LockState::Held(_)) => Err(LockError::InUse(path.clone())),
        Some(LockState::Unknown(f)) => Err(LockError::Io(f)),
        Some(_) => Ok(true),
    }
}

/// The marker text for the caller's own process, or the error for an
/// identifier that is not positive.
pub fn own_marker(pid: i32) -> (r: Result<Vec<char>, LockError>)
    ensures
        match r {
            Ok(t) => own_marker_spec(pid) == Ok::<Seq<char>, LockFailure>(t@),
            Err(e) => own_marker_spec(pid) == Err::<Seq<char>, LockFailure>(e@),
        },
{
    if pid <= 0 {
        Err(LockError::BadOwnPid(pid))
    } else {
        Ok(marker_text(pid))
    }
}

impl View for PidFile {
    type V = Seq<char>;

    /// The path of the marker file.
    closed spec fn view(&self) -> Seq<char> {
        self.path@
    }
}

impl PidFile {
    /// The lock held once the marker at `path` was written: the handle when
    /// the write succeeded, and the write's failure otherwise.
    pub fn new(path: String, written: Result<(), IoFault>) -> (r: Result<PidFile, LockError>)
        ensures
            match written {
                Ok(()) => r matches Ok(h) && h@ == path@,
                Err(f) => r matches Err(e) && e@ == LockFailure::Io(f),
            },
    {
        match written {
            Ok(()) => Ok(PidFile { path }),
            Err(f) => Err(LockError::Io(f)),
        }
    }

    /// The path of the marker file.
    pub fn path(&self) -> (r: &String)
        ensures
            r@ == self@,
    {
        &self.path
    }

    /// Whether the lock at a path is held, from its state: a malformed,
    /// stale or absent marker is no lock, and an unknown state is an error.
    ///
    /// Inspecting a path removes a stale marker (see `removed_by_query`).
    pub fn is_locked(state: &LockState) -> (r: Result<bool, IoFault>)
        ensures
            r == locked(*state),
    {
        match state {
            LockState::Held(_) => Ok(true),
            LockState::Unknown(f) => Err(*f),
            _ => Ok(false),
        }
    }

    /// What a release reports to the diagnostic sink, given how removing the
    /// marker went. A release never fails: a failed removal is only reported.
    pub fn released(&self, removed: Result<(), IoFault>) -> (r: Option<IoFault>)
        ensures
            r == match removed {
                Ok(()) => None::<IoFault>,
                Err(f) => Some(f),
            },
    {
        match removed {
            Ok(()) => None,
            Err(f) => Some(f),
        }
    }
}

} // verus!
