use vstd::prelude::*;

verus! {

/// Whether the watchdog takes requests, and whether its lock file is on disk.
#[derive(Debug, Clone, Copy, PartialEq, Eq, Structural)]
pub struct HealthState {
    pub accepting_connections: bool,
    pub lock_file_present: bool,
}

/// Why a change of health failed.
#[derive(Debug, Clone, Copy, PartialEq, Eq, Structural)]
pub enum HealthError {
    /// The lock file could not be written.
    CannotWriteLock,
    /// The lock file could not be removed.
    CannotRemoveLock,
}

impl HealthState {
    /// The state after `mark_healthy`, where `created` tells whether writing
    /// the lock file succeeded.
    pub open spec fn after_healthy(self, suppress_lock: bool, created: bool) -> (HealthState, bool) {
        if suppress_lock {
            (HealthState { accepting_connections: true, ..self }, true)
        } else if created {
            (HealthState { accepting_connections: true, lock_file_present: true }, true)
        } else {
            (HealthState { accepting_connections: true, ..self }, false)
        }
    }

    /// The state after `mark_unhealthy`, where `removed` tells whether
    /// removing the lock file succeeded.
    pub open spec fn after_unhealthy(self, removed: bool) -> (HealthState, bool) {
        (HealthState { accepting_connections: false, lock_file_present: false }, removed)
    }

    /// Neither flag set: the state before start-up.
    pub fn new() -> (r: HealthState)
        ensures
            !r.accepting_connections,
            !r.lock_file_present,
    {
        HealthState { accepting_connections: false, lock_file_present: false }
    }

    /// Healthy when accepting connections or when the lock file is present.
    pub fn check_healthy(&self) -> (r: bool)
        ensures
            r == (self.accepting_connections || self.lock_file_present),
    {
        self.accepting_connections || self.lock_file_present
    }

    /// Starts accepting connections. Unless `suppress_lock`, the lock file is
    /// to be written: `created` says whether that succeeded.
    pub fn mark_healthy(&mut self, suppress_lock: bool, created: bool) -> (r: Result<(), HealthError>)
        ensures
            (*final(self), r is Ok) == old(self).after_healthy(suppress_lock, created),
            r matches Err(e) ==> e is CannotWriteLock,
    {
        self.accepting_connections = true;
        if suppress_lock {
            Ok(())
        } else if created {
            self.lock_file_present = true;
            Ok(())
        } else {
            Err(HealthError::CannotWriteLock)
        }
    }

    /// Stops accepting connections and removes the lock file: `removed`
    /// says whether the removal succeeded.
    pub fn mark_unhealthy(&mut self, removed: bool) -> (r: Result<(), HealthError>)
        ensures
            (*final(self), r is Ok) == old(self).after_unhealthy(removed),
            r matches Err(e) ==> e is CannotRemoveLock,
    {
        self.accepting_connections = false;
        self.lock_file_present = false;
        if removed {
            Ok(())
        } else {
            Err(HealthError::CannotRemoveLock)
        }
    }
}

/// Where the lock file is written and removed by this process alone, writing
/// it succeeds and removing it succeeds exactly when it is there. Then marking
/// healthy twice leaves the file present and the flag set, and of two marks
/// unhealthy after that only the second fails.
pub proof fn lemma_health_idempotent(s: HealthState)
    ensures
        ({
            let (a, ok1) = s.after_healthy(false, true);
            let (b, ok2) = a.after_healthy(false, true);
            let (c, ok3) = b.after_unhealthy(b.lock_file_present);
            let (d, ok4) = c.after_unhealthy(c.lock_file_present);
            &&& ok1 && ok2
            &&& b.lock_file_present && b.accepting_connections
            &&& ok3
            &&& !ok4
            &&& !d.accepting_connections && !d.lock_file_present
        }),
{
}

} // verus!
