//! The order of an inspection's steps: read the marker, probe the process it
//! names, remove a stale marker, and report the state found.
//!
//! The caller starts with `Begin`, performs each action it is handed, and
//! answers with the matching observation, until it is handed `Found`.
//! `lemma_inspect_steps_follow_model` shows that, answered by the model
//! filesystem, the steps end as `model::inspect` and `model::after_inspect`
//! say.

use vstd::prelude::*;
use crate::lock::{
    examine_marker, examined, judge_probe, judged, read_view, Examined, IoFault, Liveness,
    LockState,
};
use crate::model::{after_inspect, inspect, read_marker, Files};

verus! {

/// What the caller observed after its last action.
#[derive(Debug, PartialEq, Eq)]
pub enum InspectEvent {
    /// Nothing yet: the inspection starts.
    Begin,
    /// What reading the marker file gave.
    Read(Result<Vec<char>, IoFault>),
    /// What probing the named process answered.
    Probed(i32, Liveness),
    /// The stale marker was removed, or its removal failed, which is ignored.
    Removed(LockState),
}

/// What the caller does next.
#[derive(Clone, Copy, Debug, PartialEq, Eq, Structural)]
pub enum InspectAction {
    /// Read the marker file's text.
    Read,
    /// Probe whether this process exists.
    Probe(i32),
    /// Remove the marker file, which is stale, ignoring a failure.
    Remove(LockState),
    /// The inspection is over; this is the state found.
    Found(LockState),
}

/// The step after reading the marker.
pub open spec fn after_read(read: Result<Seq<char>, IoFault>) -> InspectAction {
    match examined(read) {
        Examined::Settled(s) => InspectAction::Found(s),
        Examined::Probe(p) => InspectAction::Probe(p),
    }
}

/// The step after probing the named process: a stale marker is removed.
pub open spec fn after_probe(pid: i32, live: Liveness) -> InspectAction {
    let s = judged(pid, live);
    if s is Stale {
        InspectAction::Remove(s)
    } else {
        InspectAction::Found(s)
    }
}

/// Decides the next step of an inspection.
pub fn inspect_next(event: &InspectEvent) -> (r: InspectAction)
    ensures
        match *event {
            InspectEvent::Begin => r == InspectAction::Read,
            InspectEvent::Read(read) => r == after_read(read_view(read)),
            InspectEvent::Probed(pid, live) => r == after_probe(pid, live),
            InspectEvent::Removed(s) => r == InspectAction::Found(s),
        },
{
    match event {
        InspectEvent::Begin => InspectAction::Read,
        InspectEvent::Read(read) => match examine_marker(read) {
            Examined::Settled(s) => InspectAction::Found(s),
            Examined::Probe(p) => InspectAction::Probe(p),
        },
        InspectEvent::Probed(pid, live) => {
            let s = judge_probe(*pid, *live);
            if s.removed_by_query() {
                InspectAction::Remove(s)
            } else {
                InspectAction::Found(s)
            }
        },
        InspectEvent::Removed(s) => InspectAction::Found(*s),
    }
}

/// Performs `action` on the model filesystem and goes on for at most `fuel`
/// more actions: the files afterwards and the state found.
pub open spec fn run_inspect(
    files: Files,
    path: Seq<char>,
    probe: spec_fn(int) -> Liveness,
    action: InspectAction,
    fuel: nat,
) -> (Files, LockState)
    decreases fuel,
{
    if fuel == 0 {
        (files, LockState::Unknown(IoFault::Other))
    } else {
        match action {
            InspectAction::Read => run_inspect(
                files,
                path,
                probe,
                after_read(read_marker(files, path)),
                (fuel - 1) as nat,
            ),
            InspectAction::Probe(p) => run_inspect(
                files,
                path,
                probe,
                after_probe(p, probe(p as int)),
                (fuel - 1) as nat,
            ),
            InspectAction::Remove(s) => run_inspect(
                files.remove(path),
                path,
                probe,
                InspectAction::Found(s),
                (fuel - 1) as nat,
            ),
            InspectAction::Found(s) => (files, s),
        }
    }
}

/// Driven by the model filesystem, the inspection steps find the state that
/// `inspect` gives and leave the files as `after_inspect` does.
pub proof fn lemma_inspect_steps_follow_model(
    files: Files,
    path: Seq<char>,
    probe: spec_fn(int) -> Liveness,
)
    ensures
        ({
            let state = inspect(files, path, probe);
            run_inspect(files, path, probe, InspectAction::Read, 4) == (
                after_inspect(files, path, state),
                state,
            )
        }),
{
    reveal_with_fuel(run_inspect, 5);
}

} // verus!
