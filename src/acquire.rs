//! The order of an acquisition's steps, as a function from what the caller
//! last observed to what it does next.
//!
//! The caller starts with `Begin`, performs each action it is handed, and
//! answers with the matching observation, until it is handed `Fail` or
//! `Acquired`. `lemma_acquire_steps_follow_model` shows that, answered by the
//! model filesystem, the steps end as `model::create_lock` says.

use vstd::prelude::*;
use crate::lock::{
    acquire_plan, own_marker, own_marker_spec, plan_acquire, IoFault, LockError, LockFailure,
    LockState, PidFile,
};
use crate::model::{after_inspect, create_lock, inspect, Files};

verus! {

/// What the caller observed after its last action.
#[derive(Clone, Copy, Debug, PartialEq, Eq)]
pub enum AcquireEvent {
    /// Nothing yet: the acquisition starts.
    Begin,
    /// Whether a file exists at the path.
    Exists(bool),
    /// The state that inspecting the path found; a stale marker has been
    /// removed by that inspection.
    Inspected(LockState),
    /// The old marker was removed, or its removal failed; either way the
    /// acquisition goes on.
    Removed,
    /// The caller's own process identifier.
    OwnPid(i32),
    /// How writing the marker went.
    Written(Result<(), IoFault>),
}

/// What the caller does next.
#[derive(Debug)]
pub enum AcquireAction {
    /// Check whether a file exists at the path.
    CheckExists,
    /// Inspect the lock at the path, removing a stale marker.
    Inspect,
    /// Remove the file at the path, ignoring a failure.
    Remove,
    /// Obtain the caller's own process identifier.
    GetPid,
    /// Write this text to the path, creating or truncating the file.
    Write(Vec<char>),
    /// The acquisition failed.
    Fail(LockError),
    /// The lock is held; here is its handle.
    Acquired(PidFile),
}

/// An action with its text, error and handle seen through their views.
pub enum AcquireMove {
    CheckExists,
    Inspect,
    Remove,
    GetPid,
    Write(Seq<char>),
    Fail(LockFailure),
    Acquired(Seq<char>),
}

impl View for AcquireAction {
    type V = AcquireMove;

    open spec fn view(&self) -> AcquireMove {
        match self {
            AcquireAction::CheckExists => AcquireMove::CheckExists,
            AcquireAction::Inspect => AcquireMove::Inspect,
            AcquireAction::Remove => AcquireMove::Remove,
            AcquireAction::GetPid => AcquireMove::GetPid,
            AcquireAction::Write(t) => AcquireMove::Write(t@),
            AcquireAction::Fail(e) => AcquireMove::Fail(e@),
            AcquireAction::Acquired(h) => AcquireMove::Acquired(h@),
        }
    }
}

/// The next step of an acquisition at `path`: check for a file; inspect an
/// existing one; refuse a held lock or an unknown state; remove an old
/// marker; obtain the own identifier; write it; hand out the handle.
pub open spec fn next_acquire(path: Seq<char>, event: AcquireEvent) -> AcquireMove {
    match event {
        AcquireEvent::Begin => AcquireMove::CheckExists,
        AcquireEvent::Exists(true) => AcquireMove::Inspect,
        AcquireEvent::Exists(false) => AcquireMove::GetPid,
        AcquireEvent::Inspected(state) => match acquire_plan(path, Some(state)) {
            Err(e) => AcquireMove::Fail(e),
            Ok(true) => AcquireMove::Remove,
            Ok(false) => AcquireMove::GetPid,
        },
        AcquireEvent::Removed => AcquireMove::GetPid,
        AcquireEvent::OwnPid(pid) => match own_marker_spec(pid) {
            Err(e) => AcquireMove::Fail(e),
            Ok(t) => AcquireMove::Write(t),
        },
        AcquireEvent::Written(Ok(())) => AcquireMove::Acquired(path),
        AcquireEvent::Written(Err(f)) => AcquireMove::Fail(LockFailure::Io(f)),
    }
}

/// Decides the next step of an acquisition at `path`.
pub fn acquire_next(path: &String, event: AcquireEvent) -> (r: AcquireAction)
    ensures
        r@ == next_acquire(path@, event),
{
    match event {
        AcquireEvent::Begin => AcquireAction::CheckExists,
        AcquireEvent::Exists(true) => AcquireAction::Inspect,
        AcquireEvent::Exists(false) => AcquireAction::GetPid,
        AcquireEvent::Inspected(state) => match plan_acquire(path, Some(state)) {
            Err(e) => AcquireAction::Fail(e),
            Ok(true) => AcquireAction::Remove,
            Ok(false) => AcquireAction::GetPid,
        },
        AcquireEvent::Removed => AcquireAction::GetPid,
        AcquireEvent::OwnPid(pid) => match own_marker(pid) {
            Err(e) => AcquireAction::Fail(e),
            Ok(t) => AcquireAction::Write(t),
        },
        AcquireEvent::Written(written) => match PidFile::new(path.clone(), written) {
            Ok(h) => AcquireAction::Acquired(h),
            Err(e) => AcquireAction::Fail(e),
        },
    }
}

/// Performs `action` on the model filesystem, answers with what it observed,
/// and goes on for at most `fuel` more actions.
pub open spec fn run_acquire(
    files: Files,
    path: Seq<char>,
    probe: spec_fn(int) -> crate::lock::Liveness,
    own: i32,
    action: AcquireMove,
    fuel: nat,
) -> (Files, Result<(), LockFailure>)
    decreases fuel,
{
    if fuel == 0 {
        (files, Err(LockFailure::Io(IoFault::Other)))
    } else {
        match action {
            AcquireMove::CheckExists => run_acquire(
                files,
                path,
                probe,
                own,
                next_acquire(path, AcquireEvent::Exists(files.contains_key(path))),
                (fuel - 1) as nat,
            ),
            AcquireMove::Inspect => {
                let state = inspect(files, path, probe);
                run_acquire(
                    after_inspect(files, path, state),
                    path,
                    probe,
                    own,
                    next_acquire(path, AcquireEvent::Inspected(state)),
                    (fuel - 1) as nat,
                )
            },
            AcquireMove::Remove => run_acquire(
                files.remove(path),
                path,
                probe,
                own,
                next_acquire(path, AcquireEvent::Removed),
                (fuel - 1) as nat,
            ),
            AcquireMove::GetPid => run_acquire(
                files,
                path,
                probe,
                own,
                next_acquire(path, AcquireEvent::OwnPid(own)),
                (fuel - 1) as nat,
            ),
            AcquireMove::Write(t) => run_acquire(
                files.insert(path, t),
                path,
                probe,
                own,
                next_acquire(path, AcquireEvent::Written(Ok(()))),
                (fuel - 1) as nat,
            ),
            AcquireMove::Fail(e) => (files, Err(e)),
            AcquireMove::Acquired(_) => (files, Ok(())),
        }
    }
}

/// Driven by the model filesystem, the acquisition steps end where
/// `create_lock` does: the same files and the same outcome.
pub proof fn lemma_acquire_steps_follow_model(
    files: Files,
    path: Seq<char>,
    probe: spec_fn(int) -> crate::lock::Liveness,
    own: i32,
)
    ensures
        run_acquire(files, path, probe, own, next_acquire(path, AcquireEvent::Begin), 6)
            == create_lock(files, path, probe, own),
{
    reveal_with_fuel(run_acquire, 7);
}

} // verus!
