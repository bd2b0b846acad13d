//! The lock's operations composed over a model of the filesystem, and the
//! laws they obey.
//!
//! The model maps each path that holds a file to the file's text; its reads
//! and writes succeed, and the liveness probe is any function from process
//! identifiers to answers. Each operation performs the steps of `lock` in the
//! order in which a caller drives them.

use vstd::prelude::*;
use crate::lock::{
    acquire_plan, examined, judged, locked, own_marker_spec, Examined, IoFault, Liveness,
    LockFailure, LockState,
};
use crate::marker::{decimal, lemma_marker_round_trip, pid_of};

verus! {

pub type Files = Map<Seq<char>, Seq<char>>;

/// What reading the file at a path gives.
pub open spec fn read_marker(files: Files, path: Seq<char>) -> Result<Seq<char>, IoFault> {
    if files.contains_key(path) {
        Ok(files[path])
    } else {
        Err(IoFault::NotFound)
    }
}

/// The state of the lock at a path: read the marker, then probe the process
/// that it names, if any.
pub open spec fn inspect(files: Files, path: Seq<char>, probe: spec_fn(int) -> Liveness) -> LockState {
    match examined(read_marker(files, path)) {
        Examined::Settled(s) => s,
        Examined::Probe(p) => judged(p, probe(p as int)),
    }
}

/// The files after an inspection that found `state`: a stale marker is removed.
pub open spec fn after_inspect(files: Files, path: Seq<char>, state: LockState) -> Files {
    if state is Stale {
        files.remove(path)
    } else {
        files
    }
}

/// Querying the lock at a path: the files afterwards, and the answer.
pub open spec fn query_lock(files: Files, path: Seq<char>, probe: spec_fn(int) -> Liveness) -> (
    Files,
    Result<bool, IoFault>,
) {
    let state = inspect(files, path, probe);
    (after_inspect(files, path, state), locked(state))
}

/// Acquiring the lock at a path for the process `own`: the files afterwards,
/// and whether a handle was returned.
pub open spec fn create_lock(
    files: Files,
    path: Seq<char>,
    probe: spec_fn(int) -> Liveness,
    own: i32,
) -> (Files, Result<(), LockFailure>) {
    let existing = if files.contains_key(path) {
        Some(inspect(files, path, probe))
    } else {
        None
    };
    let found = match existing {
        Some(s) => after_inspect(files, path, s),
        None => files,
    };
    match acquire_plan(path, existing) {
        Err(e) => (found, Err(e)),
        Ok(remove) => {
            let cleared = if remove {
                found.remove(path)
            } else {
                found
            };
            match own_marker_spec(own) {
                Err(e) => (cleared, Err(e)),
                Ok(t) => (cleared.insert(path, t), Ok(())),
            }
        },
    }
}

/// Releasing the lock at a path: its marker is removed, if it is there.
pub open spec fn release(files: Files, path: Seq<char>) -> Files {
    files.remove(path)
}

/// On a fresh path a live process acquires the lock; a query then finds it
/// held and changes nothing; after the release the file is gone and a query
/// finds the lock free.
pub proof fn lemma_acquire_query_release(
    files: Files,
    path: Seq<char>,
    probe: spec_fn(int) -> Liveness,
    own: i32,
)
    requires
        !files.contains_key(path),
        own > 0,
        probe(own as int) == Liveness::Alive,
    ensures
        ({
            let (held, created) = create_lock(files, path, probe, own);
            let freed = release(held, path);
            &&& created == Ok::<(), LockFailure>(())
            &&& held == files.insert(path, decimal(own as nat))
            &&& query_lock(held, path, probe) == (held, Ok::<bool, IoFault>(true))
            &&& !freed.contains_key(path)
            &&& query_lock(freed, path, probe) == (freed, Ok::<bool, IoFault>(false))
        }),
{
    lemma_marker_round_trip(own as int);
    let (held, created) = create_lock(files, path, probe, own);
    assert(held[path] == decimal(own as nat));
    assert(pid_of(held[path]) == Some(own as int));
    assert(inspect(held, path, probe) == LockState::Held(own));
}

/// While a live process holds the lock, acquiring it fails as in use and
/// leaves the files as they were.
pub proof fn lemma_contention(
    files: Files,
    path: Seq<char>,
    probe: spec_fn(int) -> Liveness,
    holder: int,
    own: i32,
)
    requires
        files.contains_key(path),
        pid_of(files[path]) == Some(holder),
        probe(holder) == Liveness::Alive,
    ensures
        create_lock(files, path, probe, own) == (files, Err::<(), LockFailure>(LockFailure::InUse(path))),
        query_lock(files, path, probe) == (files, Ok::<bool, IoFault>(true)),
{
    assert(inspect(files, path, probe) == LockState::Held(holder as i32));
}

/// A marker naming a process that is gone (the probe finds no such process,
/// or may not reach it) is no lock: a query removes it, and an acquisition, before or after that
/// query, succeeds.
pub proof fn lemma_stale_reclaim(
    files: Files,
    path: Seq<char>,
    probe: spec_fn(int) -> Liveness,
    dead: int,
    own: i32,
)
    requires
        files.contains_key(path),
        pid_of(files[path]) == Some(dead),
        probe(dead) == Liveness::Gone || probe(dead) == Liveness::Denied || probe(dead)
            == Liveness::Failed(IoFault::NotFound),
        own > 0,
    ensures
        query_lock(files, path, probe) == (files.remove(path), Ok::<bool, IoFault>(false)),
        create_lock(files.remove(path), path, probe, own) == (files.remove(path).insert(
            path,
            decimal(own as nat),
        ), Ok::<(), LockFailure>(())),
        create_lock(files, path, probe, own) == (files.remove(path).insert(
            path,
            decimal(own as nat),
        ), Ok::<(), LockFailure>(())),
{
    assert(inspect(files, path, probe) == LockState::Stale(dead as i32));
    assert(!files.remove(path).contains_key(path));
    assert(files.remove(path).remove(path) =~= files.remove(path));
}

/// A marker that names no process is no lock: a query leaves it in place,
/// and an acquisition replaces it with the acquirer's marker.
pub proof fn lemma_malformed_reclaim(
    files: Files,
    path: Seq<char>,
    probe: spec_fn(int) -> Liveness,
    own: i32,
)
    requires
        files.contains_key(path),
        pid_of(files[path]) is None,
        own > 0,
    ensures
        query_lock(files, path, probe) == (files, Ok::<bool, IoFault>(false)),
        create_lock(files, path, probe, own) == (files.insert(path, decimal(own as nat)), Ok::<
            (),
            LockFailure,
        >(())),
{
    assert(inspect(files, path, probe) == LockState::Malformed);
    assert(files.remove(path).insert(path, decimal(own as nat)) =~= files.insert(
        path,
        decimal(own as nat),
    ));
}

/// Where no file exists, a query finds no lock and changes nothing.
pub proof fn lemma_absent(files: Files, path: Seq<char>, probe: spec_fn(int) -> Liveness)
    requires
        !files.contains_key(path),
    ensures
        query_lock(files, path, probe) == (files, Ok::<bool, IoFault>(false)),
{
}

/// Releasing a lock whose marker is already gone changes nothing.
pub proof fn lemma_release_without_marker(files: Files, path: Seq<char>)
    requires
        !files.contains_key(path),
    ensures
        release(files, path) == files,
{
    assert(files.remove(path) =~= files);
}

} // verus!
