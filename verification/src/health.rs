//! The health registry: app name -> optional pid, populated on launch, and
//! the verdict returned for a liveness query.

use vstd::prelude::*;
use crate::assoc::{assoc_find, lemma_assoc_push, spec_assoc};

verus! {

/// The shared app-name -> pid map. An entry is present only for apps with a
/// run command; a static-site app has no process and no entry.
#[derive(Debug)]
pub struct HealthRegistry {
    pub pids: Vec<(String, Option<u32>)>,
}

/// The registry's binding for an app name: the most recent update wins.
pub open spec fn spec_pid_entry(r: HealthRegistry, app: Seq<char>) -> Option<Option<u32>> {
    spec_assoc(r.pids@, app)
}

impl HealthRegistry {
    /// An empty registry: no app is known.
    pub fn new() -> (r: HealthRegistry)
        ensures
            r.pids@.len() == 0,
            forall|a: Seq<char>| spec_pid_entry(r, a) is None,
    {
        let r = HealthRegistry { pids: Vec::new() };
        proof {
            assert forall|a: Seq<char>| spec_pid_entry(r, a) is None by {
                assert(r.pids@.len() == 0);
            }
        }
        r
    }

    /// Records the pid an app was launched with (or `None` for an app that
    /// has no process); every other app's entry is untouched.
    pub fn update_pid(&mut self, app: String, pid: Option<u32>)
        ensures
            final(self).pids@ == old(self).pids@.push((app, pid)),
            spec_pid_entry(*final(self), app@) == Some(pid),
            forall|a: Seq<char>|
                a != app@ ==> spec_pid_entry(*final(self), a) == spec_pid_entry(*old(self), a),
    {
        let ghost entries = self.pids@;
        let ghost e = (app, pid);
        self.pids.push((app, pid));
        proof {
            assert forall|a: Seq<char>| #![auto] spec_assoc(entries.push(e), a) == if e.0@ == a {
                Some(e.1)
            } else {
                spec_assoc(entries, a)
            } by {
                lemma_assoc_push(entries, e, a);
            }
        }
    }

    /// The recorded pid for an app: `None` for an unknown app or one
    /// recorded without a process.
    pub fn pid_of(&self, app: &str) -> (r: Option<u32>)
        ensures
            match spec_pid_entry(*self, app@) {
                Some(p) => r == p,
                None => r is None,
            },
    {
        match assoc_find(&self.pids, app) {
            Some(i) => self.pids[i].1,
            None => None,
        }
    }
}

/// A health query's answer.
#[derive(Debug)]
pub struct HealthResponse {
    pub status: String,
    pub app: String,
    pub pid: Option<u32>,
    pub timestamp: i64,
}

/// Builds the verdict for a query: healthy exactly when a pid is recorded
/// and the caller's liveness probe of that pid succeeded. An unknown app
/// (no pid) is unhealthy, not an error.
pub fn health_verdict(app: String, pid: Option<u32>, alive: bool, timestamp: i64) -> (r:
    HealthResponse)
    ensures
        r.app == app,
        r.pid == pid,
        r.timestamp == timestamp,
        (pid is Some && alive) ==> r.status@ == "healthy"@,
        !(pid is Some && alive) ==> r.status@ == "unhealthy"@,
{
    let healthy = pid.is_some() && alive;
    let status = if healthy {
        "healthy".to_owned()
    } else {
        "unhealthy".to_owned()
    };
    HealthResponse { status, app, pid, timestamp }
}

} // verus!
