//! The lifecycle manager's decisions: start, stop, restart and rollback as
//! transitions over the persisted per-app record and the versioned app
//! directory. The surrounding process performs the file moves, signals and
//! spawns these decisions call for.

use vstd::prelude::*;
use crate::types::{AppState, AppStatus, RunSection};

verus! {

/// A typed lifecycle failure; the control server wraps it into a uniform
/// success/message response.
#[derive(Debug, Clone, Copy, PartialEq, Eq, Structural)]
pub enum LifecycleError {
    /// No persisted state for this app name.
    AppNotFound,
    /// The manifest declares no run command.
    NoRunSection,
    /// `versions` is empty or absent: nothing to roll back to.
    NoBackups,
    /// The manage request named no known action.
    UnknownAction,
}

/// The human-readable message each lifecycle failure reports.
pub open spec fn spec_error_message(e: LifecycleError) -> Seq<char> {
    match e {
        LifecycleError::AppNotFound => "App not found"@,
        LifecycleError::NoRunSection => "No [run] section"@,
        LifecycleError::NoBackups => "No backups found"@,
        LifecycleError::UnknownAction => "Unknown action"@,
    }
}

impl LifecycleError {
    /// The human-readable message reported for this failure.
    pub fn message(&self) -> (r: String)
        ensures
            r@ == spec_error_message(*self),
    {
        match self {
            LifecycleError::AppNotFound => "App not found".to_owned(),
            LifecycleError::NoRunSection => "No [run] section".to_owned(),
            LifecycleError::NoBackups => "No backups found".to_owned(),
            LifecycleError::UnknownAction => "Unknown action".to_owned(),
        }
    }
}

/// The record after a stop: stopped, pid cleared, everything else kept.
pub open spec fn spec_stopped(s: AppState) -> AppState {
    AppState {
        name: s.name,
        version: s.version,
        status: AppStatus::Stopped,
        pid: None,
        port: s.port,
        health_url: s.health_url,
        isolation: s.isolation,
    }
}

/// The record after a successful start with the new process id.
pub open spec fn spec_started(s: AppState, pid: u32) -> AppState {
    AppState {
        name: s.name,
        version: s.version,
        status: AppStatus::Running,
        pid: Some(pid),
        port: s.port,
        health_url: s.health_url,
        isolation: s.isolation,
    }
}

/// Idempotent stop: stopping an already-stopped record changes nothing,
/// and in particular the pid stays cleared.
pub proof fn lemma_stop_idempotent(s: AppState)
    ensures
        spec_stopped(spec_stopped(s)) == spec_stopped(s),
        spec_stopped(s).pid is None,
        spec_stopped(s).status is Stopped,
{
}

/// The stop decision: the new record to persist and the pid to signal.
/// Signalling is best effort - the state transition does not depend on the
/// signal's outcome, so stopping never fails once the record exists.
pub fn stop_app(state: &AppState) -> (r: (AppState, Option<u32>))
    ensures
        r.0 == spec_stopped(*state),
        r.1 == state.pid,
{
    let new_state = AppState {
        name: state.name.clone(),
        version: state.version.clone(),
        status: AppStatus::Stopped,
        pid: None,
        port: state.port,
        health_url: state.health_url.clone(),
        isolation: state.isolation,
    };
    (new_state, state.pid)
}

/// What a start decides: nothing to do, or spawn this command.
#[derive(Debug)]
pub enum StartPlan {
    /// The app is already running: report success without spawning.
    AlreadyRunning,
    /// Spawn this run command in the app's directory.
    Spawn(String),
}

/// The start decision: a no-op success when already running, a failure
/// when the manifest has no run command, else the command to spawn.
pub fn start_app(state: &AppState, run: &Option<RunSection>) -> (r: Result<
    StartPlan,
    LifecycleError,
>)
    ensures
        state.status is Running ==> (r matches Ok(p) && p is AlreadyRunning),
        state.status is Stopped && run is None ==> r == Err::<StartPlan, LifecycleError>(
            LifecycleError::NoRunSection,
        ),
        (state.status is Stopped && run is Some) ==> (r matches Ok(p) && p matches
            StartPlan::Spawn(c) && c@ == (*run)->0.command@),
{
    match state.status {
        AppStatus::Running => Ok(StartPlan::AlreadyRunning),
        AppStatus::Stopped => match run {
            None => Err(LifecycleError::NoRunSection),
            Some(rs) => Ok(StartPlan::Spawn(rs.command.clone())),
        },
    }
}

/// The record persisted after a spawn: running, carrying the new pid.
pub fn started_state(state: &AppState, pid: u32) -> (r: AppState)
    ensures
        r == spec_started(*state, pid),
{
    AppState {
        name: state.name.clone(),
        version: state.version.clone(),
        status: AppStatus::Running,
        pid: Some(pid),
        port: state.port,
        health_url: state.health_url.clone(),
        isolation: state.isolation,
    }
}

/// The versioned app directory: the pointer to the active tree and the
/// prior actives under `versions`, each keyed by the unix second it was
/// backed up at. Trees are named by what they hold.
#[derive(Debug)]
pub struct AppDir {
    /// What `current` points at, if anything is deployed.
    pub current: Option<String>,
    /// Prior actives: backup timestamp and the tree saved then, in the
    /// order the backups were taken. Same-second collisions stay as-is.
    pub versions: Vec<(i64, String)>,
    /// The persisted record, once one was written.
    pub state: Option<AppState>,
}

impl AppDir {
    /// An app directory nothing was deployed to.
    pub fn new() -> (r: AppDir)
        ensures
            r.current is None,
            r.versions@.len() == 0,
            r.state is None,
    {
        AppDir { current: None, versions: Vec::new(), state: None }
    }

    /// The backup-then-extract step of a deploy: an existing active tree
    /// moves into a new `versions/<ts>` slot, then the new tree becomes
    /// current. With no active tree, nothing is backed up.
    pub fn deploy_tree(&mut self, ts: i64, tree: String)
        ensures
            final(self).current == Some(tree),
            final(self).state == old(self).state,
            old(self).current matches Some(c) ==> final(self).versions@ == old(
                self,
            ).versions@.push((ts, c)),
            old(self).current is None ==> final(self).versions@ == old(self).versions@,
    {
        match &self.current {
            Some(c) => {
                let saved = c.clone();
                self.versions.push((ts, saved));
            },
            None => {},
        }
        self.current = Some(tree);
    }

    /// The rollback decision: repoint `current` at the most recent backup
    /// (the greatest timestamp; of equal timestamps, the latest slot) and
    /// say whether a restart is owed because the app was last running.
    /// Fails with no backups, leaving everything unchanged.
    pub fn rollback(&mut self) -> (r: Result<bool, LifecycleError>)
        ensures
            old(self).versions@.len() == 0 ==> r == Err::<bool, LifecycleError>(
                LifecycleError::NoBackups,
            ) && *final(self) == *old(self),
            old(self).versions@.len() > 0 ==> {
                let vs = old(self).versions@;
                exists|m: int|
                    {
                        &&& 0 <= m < vs.len()
                        &&& r == Ok::<bool, LifecycleError>(
                            old(self).state matches Some(s) && s.status is Running,
                        )
                        &&& final(self).current == Some(vs[m].1)
                        &&& (forall|j: int| 0 <= j < vs.len() ==> vs[j].0 <= vs[m].0)
                        &&& (forall|j: int| m < j < vs.len() ==> vs[j].0 < vs[m].0)
                        &&& final(self).versions@ == vs
                        &&& final(self).state == old(self).state
                    }
            },
    {
        let n = self.versions.len();
        if n == 0 {
            return Err(LifecycleError::NoBackups);
        }
        let mut best: usize = 0;
        let mut i: usize = 1;
        while i < n
            invariant
                best < i <= n,
                n == self.versions@.len(),
                forall|j: int| 0 <= j < i ==> self.versions@[j].0 <= self.versions@[best as int].0,
                forall|j: int|
                    best < j < i ==> self.versions@[j].0 < self.versions@[best as int].0,
            decreases n - i,
        {
            if self.versions[i].0 >= self.versions[best].0 {
                best = i;
            }
            i += 1;
        }
        let target = self.versions[best].1.clone();
        self.current = Some(target);
        let needs_restart = match &self.state {
            Some(s) => match s.status {
                AppStatus::Running => true,
                AppStatus::Stopped => false,
            },
            None => false,
        };
        let ghost m = best as int;
        proof {
            assert(0 <= m < old(self).versions@.len());
        }
        Ok(needs_restart)
    }
}

/// Deploy-rollback round trip: deploying one tree and then another and
/// rolling back repoints `current` at the snapshot of the first tree,
/// provided the second deploy's backup slot is as recent as every
/// existing one; a restart is owed exactly when the app was last running.
pub proof fn lemma_deploy_rollback_roundtrip(
    d0: AppDir,
    d1: AppDir,
    d2: AppDir,
    d3: AppDir,
    ts1: i64,
    ts2: i64,
    t1: String,
    t2: String,
    restart: bool,
)
    requires
        // first deploy: d0 -> d1 with tree t1 at ts1
        d1.current == Some(t1),
        d1.state == d0.state,
        d0.current matches Some(c) ==> d1.versions@ == d0.versions@.push((ts1, c)),
        d0.current is None ==> d1.versions@ == d0.versions@,
        // second deploy: d1 -> d2 with tree t2 at ts2
        d2.current == Some(t2),
        d2.state == d1.state,
        d2.versions@ == d1.versions@.push((ts2, t1)),
        // the second backup slot is as recent as everything before it
        forall|j: int| 0 <= j < d1.versions@.len() ==> d1.versions@[j].0 <= ts2,
        // rollback: d2 -> d3
        d2.versions@.len() > 0,
        exists|m: int|
            {
                &&& 0 <= m < d2.versions@.len()
                &&& restart == (d2.state matches Some(s) && s.status is Running)
                &&& d3.current == Some(d2.versions@[m].1)
                &&& (forall|j: int| 0 <= j < d2.versions@.len() ==> d2.versions@[j].0 <= d2.versions@[m].0)
                &&& (forall|j: int| m < j < d2.versions@.len() ==> d2.versions@[j].0 < d2.versions@[m].0)
            },
    ensures
        d3.current == Some(t1),
        restart == (d0.state matches Some(s) && s.status is Running),
{
    let vs = d2.versions@;
    let m = choose|m: int|
        {
            &&& 0 <= m < vs.len()
            &&& restart == (d2.state matches Some(s) && s.status is Running)
            &&& d3.current == Some(vs[m].1)
            &&& (forall|j: int| 0 <= j < vs.len() ==> vs[j].0 <= vs[m].0)
            &&& (forall|j: int| m < j < vs.len() ==> vs[j].0 < vs[m].0)
        };
    let last = vs.len() - 1;
    assert(vs[last] == (ts2, t1));
    assert(vs[last].0 <= vs[m].0);
    if m < last {
        assert(vs[last].0 < vs[m].0);
        assert(vs[m].0 <= ts2);
        assert(false);
    }
    assert(m == last);
}

} // verus!
