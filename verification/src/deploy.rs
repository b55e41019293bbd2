//! The deployment pipeline's decisions: the forge URL and credentials for
//! a fetch, the launch plan (static site, spawned process, or nothing),
//! the exact command built for each isolation kind, the persisted record,
//! and the stage machine that strings the pipeline together. The
//! surrounding process performs each planned action and reports how it
//! went.

use vstd::prelude::*;
use crate::strutil::str_eq;
use crate::types::{
    AppConfig, AppState, AppStatus, DeployRequest, HealthSection, IsolationKind, RunSection,
};

verus! {

/// The URL a repository is fetched from: the well-known tarball endpoint
/// for the one built-in forge, a generic templated convention otherwise.
pub open spec fn spec_forge_url(forge: Seq<char>, repo: Seq<char>) -> Seq<char> {
    if forge == "github"@ {
        "https://api.github.com/repos/"@ + repo + "/tarball/main"@
    } else {
        forge + "/git/"@ + repo + "/archive"@
    }
}

/// Resolves the download URL for a deploy request.
pub fn forge_url(forge: &str, repo: &str) -> (r: String)
    ensures
        r@ == spec_forge_url(forge@, repo@),
{
    if str_eq(forge, "github") {
        let mut out: String = "https://api.github.com/repos/".to_owned();
        out.append(repo);
        out.append("/tarball/main");
        out
    } else {
        let mut out: String = forge.to_owned();
        out.append("/git/");
        out.append(repo);
        out.append("/archive");
        out
    }
}

/// The credentials attached to a fetch.
#[derive(Debug)]
pub enum FetchAuth {
    /// A bearer token, for the built-in forge.
    Bearer(String),
    /// User and password, for a self-hosted forge.
    Basic(String, String),
    /// No credentials supplied.
    Anonymous,
}

/// Chooses the fetch credentials: a supplied password is a bearer token
/// for the built-in forge; with a user it is basic authentication against
/// a self-hosted forge; anything else goes out anonymously.
pub fn fetch_auth(forge: &str, auth_user: &Option<String>, auth_password: &Option<String>) -> (r:
    FetchAuth)
    ensures
        auth_password is None ==> r is Anonymous,
        (auth_password is Some && forge@ == "github"@) ==> (r matches FetchAuth::Bearer(t) && t
            == (*auth_password)->0),
        (auth_password is Some && forge@ != "github"@ && auth_user is Some) ==> (r matches
            FetchAuth::Basic(u, p) && u == (*auth_user)->0 && p == (*auth_password)->0),
        (auth_password is Some && forge@ != "github"@ && auth_user is None) ==> r is Anonymous,
{
    match auth_password {
        None => FetchAuth::Anonymous,
        Some(pass) => {
            if str_eq(forge, "github") {
                FetchAuth::Bearer(pass.clone())
            } else {
                match auth_user {
                    Some(user) => FetchAuth::Basic(user.clone(), pass.clone()),
                    None => FetchAuth::Anonymous,
                }
            }
        },
    }
}

/// Everything the fetch stage needs.
#[derive(Debug)]
pub struct FetchPlan {
    pub url: String,
    pub auth: FetchAuth,
}

/// Plans the fetch for a deploy request.
pub fn plan_fetch(req: &DeployRequest) -> (r: FetchPlan)
    ensures
        r.url@ == spec_forge_url(req.forge@, req.repo@),
        req.auth_password is None ==> r.auth is Anonymous,
        (req.auth_password is Some && req.forge@ == "github"@) ==> (r.auth matches
            FetchAuth::Bearer(t) && t == req.auth_password->0),
        (req.auth_password is Some && req.forge@ != "github"@ && req.auth_user is Some) ==> (
        r.auth matches FetchAuth::Basic(u, p) && u == req.auth_user->0 && p
            == req.auth_password->0),
        (req.auth_password is Some && req.forge@ != "github"@ && req.auth_user is None)
            ==> r.auth is Anonymous,
{
    FetchPlan {
        url: forge_url(req.forge.as_str(), req.repo.as_str()),
        auth: fetch_auth(req.forge.as_str(), &req.auth_user, &req.auth_password),
    }
}

/// A fully resolved command: what to run, with which arguments and
/// environment, in which directory.
#[derive(Debug)]
pub struct CommandPlan {
    pub program: String,
    pub args: Vec<String>,
    pub env: Vec<(String, String)>,
    pub dir: String,
}

/// The `--setenv=KEY=VALUE` argument the service-manager launch carries
/// for one variable.
pub open spec fn spec_setenv_arg(k: Seq<char>, v: Seq<char>) -> Seq<char> {
    "--setenv="@ + k + "="@ + v
}

/// The manifest-declared isolation kind, verbatim, if any.
pub open spec fn spec_iso_of(config: AppConfig) -> Option<Seq<char>> {
    match config.isolation {
        Some(s) => Some(s.kind@),
        None => None,
    }
}

/// The exact shape of the launch command for each isolation kind: a
/// user-scoped transient service-manager unit carrying the environment as
/// `--setenv` arguments, a change-rooted shell, or a plain shell; the
/// latter two receive the environment directly.
pub open spec fn spec_command_plan_ok(
    plan: CommandPlan,
    command: Seq<char>,
    iso: Option<Seq<char>>,
    env: Seq<(String, String)>,
    dir: Seq<char>,
) -> bool {
    &&& plan.dir@ == dir
    &&& if iso == Some("systemd"@) {
        &&& plan.program@ == "systemd-run"@
        &&& plan.args@.len() == 5 + env.len()
        &&& plan.args@[0]@ == "--user"@
        &&& plan.args@[1]@ == "--scope"@
        &&& (forall|i: int|
            0 <= i < env.len() ==> (#[trigger] plan.args@[2 + i])@ == spec_setenv_arg(
                env[i].0@,
                env[i].1@,
            ))
        &&& plan.args@[2 + env.len() as int]@ == "sh"@
        &&& plan.args@[3 + env.len() as int]@ == "-c"@
        &&& plan.args@[4 + env.len() as int]@ == command
        &&& plan.env@.len() == 0
    } else if iso == Some("chroot"@) {
        &&& plan.program@ == "chroot"@
        &&& plan.args@.len() == 4
        &&& plan.args@[0]@ == dir
        &&& plan.args@[1]@ == "sh"@
        &&& plan.args@[2]@ == "-c"@
        &&& plan.args@[3]@ == command
        &&& plan.env@ == env
    } else {
        &&& plan.program@ == "sh"@
        &&& plan.args@.len() == 2
        &&& plan.args@[0]@ == "-c"@
        &&& plan.args@[1]@ == command
        &&& plan.env@ == env
    }
}

/// Copies an environment list entry for entry.
fn clone_env(env: &Vec<(String, String)>) -> (r: Vec<(String, String)>)
    ensures
        r@ == env@,
{
    let n = env.len();
    let mut out: Vec<(String, String)> = Vec::new();
    let mut i: usize = 0;
    while i < n
        invariant
            i <= n,
            n == env@.len(),
            out@.len() == i,
            forall|j: int| 0 <= j < i ==> out@[j] == env@[j],
        decreases n - i,
    {
        out.push((env[i].0.clone(), env[i].1.clone()));
        i += 1;
    }
    proof {
        assert(out@ =~= env@);
    }
    out
}

/// Builds the launch command for a run section under the manifest's
/// isolation kind, with the resolved environment, rooted in the app's
/// directory. Both the pipeline's launch and a standalone start build
/// their command here, so the manifest is the one source of truth for the
/// isolation kind.
pub fn build_run_command(
    run: &RunSection,
    config: &AppConfig,
    env: &Vec<(String, String)>,
    dir: &str,
) -> (r: CommandPlan)
    ensures
        spec_command_plan_ok(r, run.command@, spec_iso_of(*config), env@, dir@),
{
    proof {
        reveal_strlit("systemd");
        reveal_strlit("chroot");
        assert("systemd"@.len() == 7);
        assert("chroot"@.len() == 6);
    }
    let is_systemd = match &config.isolation {
        Some(s) => str_eq(s.kind.as_str(), "systemd"),
        None => false,
    };
    let is_chroot = match &config.isolation {
        Some(s) => str_eq(s.kind.as_str(), "chroot"),
        None => false,
    };
    if is_systemd {
        let mut args: Vec<String> = Vec::new();
        args.push("--user".to_owned());
        args.push("--scope".to_owned());
        let n = env.len();
        let mut i: usize = 0;
        while i < n
            invariant
                i <= n,
                n == env@.len(),
                args@.len() == 2 + i,
                args@[0]@ == "--user"@,
                args@[1]@ == "--scope"@,
                forall|j: int|
                    0 <= j < i ==> (#[trigger] args@[2 + j])@ == spec_setenv_arg(
                        env@[j].0@,
                        env@[j].1@,
                    ),
            decreases n - i,
        {
            let mut a: String = "--setenv=".to_owned();
            a.append(env[i].0.as_str());
            a.append("=");
            a.append(env[i].1.as_str());
            args.push(a);
            i += 1;
        }
        args.push("sh".to_owned());
        args.push("-c".to_owned());
        args.push(run.command.clone());
        CommandPlan {
            program: "systemd-run".to_owned(),
            args,
            env: Vec::new(),
            dir: dir.to_owned(),
        }
    } else if is_chroot {
        let mut args: Vec<String> = Vec::new();
        args.push(dir.to_owned());
        args.push("sh".to_owned());
        args.push("-c".to_owned());
        args.push(run.command.clone());
        CommandPlan { program: "chroot".to_owned(), args, env: clone_env(env), dir: dir.to_owned() }
    } else {
        let mut args: Vec<String> = Vec::new();
        args.push("-c".to_owned());
        args.push(run.command.clone());
        CommandPlan { program: "sh".to_owned(), args, env: clone_env(env), dir: dir.to_owned() }
    }
}

/// What the launch stage does: exactly one of registering a static site,
/// spawning a process, or nothing at all.
#[derive(Debug)]
pub enum LaunchPlan {
    /// Register this host -> file-root routing entry; the app has no
    /// process, no pid and no health entry.
    StaticSite { domain: String, root: String },
    /// Spawn this command under the declared isolation kind.
    Spawn(CommandPlan),
    /// Neither a web section nor a run command: nothing to launch.
    NoProcess,
}

/// The file root a static web section serves: the app directory joined
/// with the declared root, or the directory itself.
pub open spec fn spec_web_root(dir: Seq<char>, root: Option<String>) -> Seq<char> {
    dir + "/"@ + match root {
        Some(r) => r@,
        None => "."@,
    }
}

/// Plans the launch: a web section registers a static site and wins over
/// any run command; otherwise a run command is spawned; otherwise nothing
/// happens.
pub fn plan_launch(config: &AppConfig, dir: &str, env: &Vec<(String, String)>) -> (r: LaunchPlan)
    ensures
        config.web matches Some(w) ==> (r matches LaunchPlan::StaticSite { domain, root } && domain
            == w.domain && root@ == spec_web_root(dir@, w.root)),
        (config.web is None && config.run is None) ==> r is NoProcess,
        (config.web is None && config.run is Some) ==> (r matches LaunchPlan::Spawn(p)
            && spec_command_plan_ok(p, config.run->0.command@, spec_iso_of(*config), env@, dir@)),
{
    match &config.web {
        Some(w) => {
            let mut root: String = dir.to_owned();
            root.append("/");
            match &w.root {
                Some(rel) => root.append(rel.as_str()),
                None => root.append("."),
            }
            LaunchPlan::StaticSite { domain: w.domain.clone(), root }
        },
        None => match &config.run {
            Some(run) => LaunchPlan::Spawn(build_run_command(run, config, env, dir)),
            None => LaunchPlan::NoProcess,
        },
    }
}

/// The health URL recorded and probed for an app: the declared one, when
/// a health section exists.
pub fn determine_health_url(health: &Option<HealthSection>) -> (r: Option<String>)
    ensures
        health matches Some(h) ==> r == Some(h.url),
        health is None ==> r is None,
{
    match health {
        Some(h) => Some(h.url.clone()),
        None => None,
    }
}

/// How a declared isolation kind reads: the two recognized names, and a
/// plain subprocess for anything else.
pub open spec fn spec_parse_isolation(kind: Seq<char>) -> IsolationKind {
    if kind == "systemd"@ {
        IsolationKind::Systemd
    } else if kind == "chroot"@ {
        IsolationKind::Chroot
    } else {
        IsolationKind::Plain
    }
}

/// Parses an isolation kind.
pub fn parse_isolation(kind: &str) -> (r: IsolationKind)
    ensures
        r == spec_parse_isolation(kind@),
{
    if str_eq(kind, "systemd") {
        IsolationKind::Systemd
    } else if str_eq(kind, "chroot") {
        IsolationKind::Chroot
    } else {
        IsolationKind::Plain
    }
}

/// The record the persist stage writes: running, with the captured pid,
/// the run section's port, the declared health URL and isolation kind.
pub fn deploy_state(config: &AppConfig, pid: Option<u32>) -> (r: AppState)
    ensures
        r.name == config.app.name,
        r.version == config.app.version,
        r.status is Running,
        r.pid == pid,
        r.port == match config.run {
            Some(rs) => rs.port,
            None => None,
        },
        config.health matches Some(h) ==> r.health_url == Some(h.url),
        config.health is None ==> r.health_url is None,
        r.isolation == match config.isolation {
            Some(s) => Some(spec_parse_isolation(s.kind@)),
            None => None::<IsolationKind>,
        },
{
    let port = match &config.run {
        Some(rs) => rs.port,
        None => None,
    };
    let isolation = match &config.isolation {
        Some(s) => Some(parse_isolation(s.kind.as_str())),
        None => None,
    };
    AppState {
        name: config.app.name.clone(),
        version: config.app.version.clone(),
        status: AppStatus::Running,
        pid,
        port,
        health_url: determine_health_url(&config.health),
        isolation,
    }
}

/// Where a deploy stands. Each stage but the hooks is a hard failure
/// point; the hooks are best effort.
#[derive(Debug)]
pub enum DeployStage {
    /// Resolving and downloading the archive.
    Fetching,
    /// Backing up the active tree and unpacking the new one.
    Extracting,
    /// Reading and validating the manifest.
    ReadingManifest,
    /// The best-effort pre-deploy hook.
    PreHook,
    /// Running the declared build command, if any.
    Building,
    /// Provisioning the declared database, if any.
    Provisioning,
    /// Registering a static site or spawning the run command.
    Launching,
    /// Writing the record and registering the pid; a declared health URL
    /// schedules its single delayed probe here.
    Persisting,
    /// The best-effort post-deploy hook.
    PostHook,
    /// The pipeline finished; success carries the app directory.
    Succeeded,
    /// A hard stage failed; the message is the whole pipeline's answer.
    Failed(String),
}

/// How the stage just performed went.
#[derive(Debug)]
pub enum StageOutcome {
    Done,
    Failed(String),
}

/// The pipeline's order, and which failures abort it: every stage hands
/// control to the next on success; a failure at any hard stage puts the
/// whole pipeline into `Failed` with that message; the two hooks advance
/// regardless of their outcome; the terminal stages absorb.
pub open spec fn spec_deploy_next(stage: DeployStage, outcome: StageOutcome) -> DeployStage {
    match (stage, outcome) {
        (DeployStage::PreHook, _) => DeployStage::Building,
        (DeployStage::PostHook, _) => DeployStage::Succeeded,
        (DeployStage::Succeeded, _) => DeployStage::Succeeded,
        (DeployStage::Failed(m), _) => DeployStage::Failed(m),
        (_, StageOutcome::Failed(m)) => DeployStage::Failed(m),
        (DeployStage::Fetching, StageOutcome::Done) => DeployStage::Extracting,
        (DeployStage::Extracting, StageOutcome::Done) => DeployStage::ReadingManifest,
        (DeployStage::ReadingManifest, StageOutcome::Done) => DeployStage::PreHook,
        (DeployStage::Building, StageOutcome::Done) => DeployStage::Provisioning,
        (DeployStage::Provisioning, StageOutcome::Done) => DeployStage::Launching,
        (DeployStage::Launching, StageOutcome::Done) => DeployStage::Persisting,
        (DeployStage::Persisting, StageOutcome::Done) => DeployStage::PostHook,
    }
}

/// Advances the pipeline by one reported stage outcome.
pub fn deploy_next(stage: DeployStage, outcome: StageOutcome) -> (r: DeployStage)
    ensures
        r == spec_deploy_next(stage, outcome),
{
    match (stage, outcome) {
        (DeployStage::PreHook, _) => DeployStage::Building,
        (DeployStage::PostHook, _) => DeployStage::Succeeded,
        (DeployStage::Succeeded, _) => DeployStage::Succeeded,
        (DeployStage::Failed(m), _) => DeployStage::Failed(m),
        (_, StageOutcome::Failed(m)) => DeployStage::Failed(m),
        (DeployStage::Fetching, StageOutcome::Done) => DeployStage::Extracting,
        (DeployStage::Extracting, StageOutcome::Done) => DeployStage::ReadingManifest,
        (DeployStage::ReadingManifest, StageOutcome::Done) => DeployStage::PreHook,
        (DeployStage::Building, StageOutcome::Done) => DeployStage::Provisioning,
        (DeployStage::Provisioning, StageOutcome::Done) => DeployStage::Launching,
        (DeployStage::Launching, StageOutcome::Done) => DeployStage::Persisting,
        (DeployStage::Persisting, StageOutcome::Done) => DeployStage::PostHook,
    }
}

} // verus!
