use std::collections::{HashMap, HashSet};

use pidfile::{
    acquire_next, inspect_next, judge_probe, AcquireAction, AcquireEvent, InspectAction,
    InspectEvent, IoFault, Liveness, LockError, LockState, PidFile,
};

/// An in-memory filesystem and process table that drive the library's steps.
struct World {
    files: HashMap<String, String>,
    alive: HashSet<i32>,
    own: i32,
}

impl World {
    fn new(own: i32) -> World {
        let mut alive = HashSet::new();
        alive.insert(own);
        World { files: HashMap::new(), alive, own }
    }

    fn probe(&self, pid: i32) -> Liveness {
        if self.alive.contains(&pid) {
            Liveness::Alive
        } else {
            Liveness::Gone
        }
    }

    fn inspect(&mut self, path: &str) -> LockState {
        let mut event = InspectEvent::Begin;
        loop {
            event = match inspect_next(&event) {
                InspectAction::Read => InspectEvent::Read(match self.files.get(path) {
                    Some(text) => Ok(text.chars().collect::<Vec<char>>()),
                    None => Err(IoFault::NotFound),
                }),
                InspectAction::Probe(pid) => InspectEvent::Probed(pid, self.probe(pid)),
                InspectAction::Remove(state) => {
                    self.files.remove(path);
                    InspectEvent::Removed(state)
                }
                InspectAction::Found(state) => return state,
            };
        }
    }

    fn query(&mut self, path: &str) -> Result<bool, IoFault> {
        let state = self.inspect(path);
        PidFile::is_locked(&state)
    }

    fn create(&mut self, path: &str) -> Result<PidFile, LockError> {
        let name = path.to_string();
        let mut event = AcquireEvent::Begin;
        loop {
            event = match acquire_next(&name, event) {
                AcquireAction::CheckExists => AcquireEvent::Exists(self.files.contains_key(path)),
                AcquireAction::Inspect => AcquireEvent::Inspected(self.inspect(path)),
                AcquireAction::Remove => {
                    self.files.remove(path);
                    AcquireEvent::Removed
                }
                AcquireAction::GetPid => AcquireEvent::OwnPid(self.own),
                AcquireAction::Write(text) => {
                    self.files.insert(name.clone(), text.into_iter().collect());
                    AcquireEvent::Written(Ok(()))
                }
                AcquireAction::Fail(error) => return Err(error),
                AcquireAction::Acquired(handle) => return Ok(handle),
            };
        }
    }

    fn release(&mut self, handle: PidFile) -> Option<IoFault> {
        let removed = match self.files.remove(handle.path().as_str()) {
            Some(_) => Ok(()),
            None => Err(IoFault::NotFound),
        };
        handle.released(removed)
    }
}

#[test]
fn test_pid_file() {
    let mut world = World::new(4242);
    let path = "/tmp/dir/pidfile-test.pid";
    let pid_file = world.create(path).unwrap();
    assert!(world.query(path).unwrap());
    assert_eq!(world.release(pid_file), None);
    assert!(!world.query(path).unwrap());
}

#[test]
fn test_invalid_file() {
    let mut world = World::new(4242);
    let path = "/tmp/pidfile-test.pid";
    world.files.insert(path.to_string(), "not a pid".to_string());
    assert!(!world.query(path).unwrap(), "Invalid file should not be locked.");
    assert!(
        world.files.contains_key(path),
        "Invalid file should exist after checking for locks."
    );
    let pid_file = world.create(path).unwrap();
    assert!(world.query(path).unwrap(), "PID file should be locked after creation.");
    assert_eq!(world.release(pid_file), None);
    assert!(!world.query(path).unwrap(), "PID file should not be locked after drop.");
}

#[test]
fn round_trip_on_fresh_path() {
    let mut world = World::new(77);
    let handle = world.create("/run/a.pid").unwrap();
    assert_eq!(world.query("/run/a.pid"), Ok(true));
    world.release(handle);
    assert_eq!(world.query("/run/a.pid"), Ok(false));
    assert!(!world.files.contains_key("/run/a.pid"));
}

#[test]
fn contention_leaves_marker() {
    let mut world = World::new(77);
    let _held = world.create("/run/b.pid").unwrap();
    assert_eq!(
        world.create("/run/b.pid").err(),
        Some(LockError::InUse("/run/b.pid".to_string()))
    );
    assert_eq!(world.files.get("/run/b.pid").map(|s| s.as_str()), Some("77"));
}

#[test]
fn stale_marker_is_reclaimed() {
    let mut world = World::new(77);
    world.files.insert("/run/c.pid".to_string(), "31337\n".to_string());
    assert_eq!(world.query("/run/c.pid"), Ok(false));
    assert!(!world.files.contains_key("/run/c.pid"));
    let _handle = world.create("/run/c.pid").unwrap();
    assert_eq!(world.files.get("/run/c.pid").map(|s| s.as_str()), Some("77"));
}

#[test]
fn stale_marker_is_replaced_by_acquire() {
    let mut world = World::new(77);
    world.files.insert("/run/d.pid".to_string(), "31337".to_string());
    let _handle = world.create("/run/d.pid").unwrap();
    assert_eq!(world.files.get("/run/d.pid").map(|s| s.as_str()), Some("77"));
}

#[test]
fn denied_probe_counts_as_stale() {
    assert_eq!(judge_probe(1, Liveness::Denied), LockState::Stale(1));
}

#[test]
fn malformed_marker_is_kept_by_query_and_replaced_by_acquire() {
    let mut world = World::new(77);
    world.files.insert("/run/e.pid".to_string(), "not a pid".to_string());
    assert_eq!(world.query("/run/e.pid"), Ok(false));
    assert_eq!(world.files.get("/run/e.pid").map(|s| s.as_str()), Some("not a pid"));
    let _handle = world.create("/run/e.pid").unwrap();
    assert_eq!(world.files.get("/run/e.pid").map(|s| s.as_str()), Some("77"));
}

#[test]
fn absent_path_is_not_locked() {
    let mut world = World::new(77);
    assert_eq!(world.query("/nowhere/f.pid"), Ok(false));
    assert!(world.files.is_empty());
}

#[test]
fn release_after_external_delete_only_reports() {
    let mut world = World::new(77);
    let handle = world.create("/run/g.pid").unwrap();
    world.files.remove("/run/g.pid");
    assert_eq!(world.release(handle), Some(IoFault::NotFound));
    assert!(world.files.is_empty());
}

#[test]
fn concrete_lock_at_tmp_test_pid() {
    let mut world = World::new(5150);
    let handle = world.create("/tmp/test.pid").unwrap();
    assert_eq!(world.files.get("/tmp/test.pid").map(|s| s.as_str()), Some("5150"));
    assert_eq!(world.query("/tmp/test.pid"), Ok(true));
    world.release(handle);
    assert!(!world.files.contains_key("/tmp/test.pid"));
    assert_eq!(world.query("/tmp/test.pid"), Ok(false));
}

#[test]
fn bad_own_pid_fails_acquire() {
    let mut world = World::new(0);
    assert!(matches!(world.create("/run/h.pid"), Err(LockError::BadOwnPid(0))));
}

#[test]
fn inspect_steps_in_order() {
    let read = InspectEvent::Read(Ok(vec!['4', '0']));
    assert_eq!(inspect_next(&InspectEvent::Begin), InspectAction::Read);
    assert_eq!(inspect_next(&read), InspectAction::Probe(40));
    assert_eq!(
        inspect_next(&InspectEvent::Probed(40, Liveness::Gone)),
        InspectAction::Remove(LockState::Stale(40))
    );
    assert_eq!(
        inspect_next(&InspectEvent::Removed(LockState::Stale(40))),
        InspectAction::Found(LockState::Stale(40))
    );
    assert_eq!(
        inspect_next(&InspectEvent::Probed(40, Liveness::Alive)),
        InspectAction::Found(LockState::Held(40))
    );
    assert_eq!(
        inspect_next(&InspectEvent::Read(Err(IoFault::NotFound))),
        InspectAction::Found(LockState::Absent)
    );
    assert_eq!(
        inspect_next(&InspectEvent::Probed(40, Liveness::Failed(IoFault::NotFound))),
        InspectAction::Remove(LockState::Stale(40))
    );
}
