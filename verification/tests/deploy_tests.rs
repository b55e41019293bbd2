use flared::deploy::{
    build_run_command, deploy_next, deploy_state, determine_health_url, fetch_auth, forge_url,
    parse_isolation, plan_fetch, plan_launch, CommandPlan, DeployStage, FetchAuth, LaunchPlan,
    StageOutcome,
};
use flared::protocol::deploy_response;
use flared::types::{
    AppConfig, AppSection, AppStatus, DeployRequest, HealthSection, IsolationKind,
    IsolationSection, RunSection, WebSection,
};

fn minimal_config(run: Option<RunSection>, web: Option<WebSection>) -> AppConfig {
    AppConfig {
        app: AppSection { name: "app".to_string(), version: "1.0".to_string() },
        build: None,
        run,
        env: None,
        web,
        health: None,
        isolation: None,
        storage: None,
        database: None,
        notify: None,
        secrets: None,
        resource_limits: None,
        hooks: None,
        metrics: None,
        strategy: None,
    }
}

#[test]
fn github_forge_resolves_tarball_endpoint() {
    assert_eq!(
        forge_url("github", "acme/app"),
        "https://api.github.com/repos/acme/app/tarball/main"
    );
}

#[test]
fn self_hosted_forge_resolves_archive_endpoint() {
    assert_eq!(
        forge_url("https://git.example.com", "acme/app"),
        "https://git.example.com/git/acme/app/archive"
    );
}

#[test]
fn password_is_bearer_for_github() {
    match fetch_auth("github", &None, &Some("tok".to_string())) {
        FetchAuth::Bearer(t) => assert_eq!(t, "tok"),
        other => panic!("expected Bearer, got {:?}", other),
    }
}

#[test]
fn user_and_password_are_basic_for_self_hosted() {
    match fetch_auth("https://git.example.com", &Some("me".to_string()), &Some("pw".to_string())) {
        FetchAuth::Basic(u, p) => {
            assert_eq!(u, "me");
            assert_eq!(p, "pw");
        },
        other => panic!("expected Basic, got {:?}", other),
    }
}

#[test]
fn no_password_goes_anonymous() {
    match fetch_auth("github", &Some("me".to_string()), &None) {
        FetchAuth::Anonymous => {},
        other => panic!("expected Anonymous, got {:?}", other),
    }
}

fn assert_shell_plan(plan: &CommandPlan, command: &str) {
    assert_eq!(plan.program, "sh");
    assert_eq!(plan.args, vec!["-c".to_string(), command.to_string()]);
}

#[test]
fn plain_isolation_runs_a_shell() {
    let run = RunSection { command: "./app".to_string(), port: None };
    let config = minimal_config(Some(run.clone()), None);
    let env = vec![("K".to_string(), "V".to_string())];
    let plan = build_run_command(&run, &config, &env, "/apps/app");
    assert_shell_plan(&plan, "./app");
    assert_eq!(plan.env, env);
    assert_eq!(plan.dir, "/apps/app");
}

#[test]
fn systemd_isolation_carries_env_as_setenv_args() {
    let run = RunSection { command: "./app".to_string(), port: None };
    let mut config = minimal_config(Some(run.clone()), None);
    config.isolation = Some(IsolationSection { kind: "systemd".to_string() });
    let env = vec![
        ("A".to_string(), "1".to_string()),
        ("B".to_string(), "two".to_string()),
    ];
    let plan = build_run_command(&run, &config, &env, "/apps/app");
    assert_eq!(plan.program, "systemd-run");
    assert_eq!(
        plan.args,
        vec![
            "--user".to_string(),
            "--scope".to_string(),
            "--setenv=A=1".to_string(),
            "--setenv=B=two".to_string(),
            "sh".to_string(),
            "-c".to_string(),
            "./app".to_string(),
        ]
    );
    assert!(plan.env.is_empty());
}

#[test]
fn chroot_isolation_roots_in_the_app_dir() {
    let run = RunSection { command: "./app".to_string(), port: None };
    let mut config = minimal_config(Some(run.clone()), None);
    config.isolation = Some(IsolationSection { kind: "chroot".to_string() });
    let env = vec![("K".to_string(), "V".to_string())];
    let plan = build_run_command(&run, &config, &env, "/apps/app");
    assert_eq!(plan.program, "chroot");
    assert_eq!(
        plan.args,
        vec![
            "/apps/app".to_string(),
            "sh".to_string(),
            "-c".to_string(),
            "./app".to_string(),
        ]
    );
    assert_eq!(plan.env, env);
}

#[test]
fn web_section_launches_a_static_site() {
    let web = WebSection { domain: "site.test".to_string(), root: Some("public".to_string()) };
    let config = minimal_config(None, Some(web));
    match plan_launch(&config, "/apps/site", &vec![]) {
        LaunchPlan::StaticSite { domain, root } => {
            assert_eq!(domain, "site.test");
            assert_eq!(root, "/apps/site/public");
        },
        other => panic!("expected StaticSite, got {:?}", other),
    }
}

#[test]
fn nothing_to_launch_without_web_or_run() {
    let config = minimal_config(None, None);
    match plan_launch(&config, "/apps/app", &vec![]) {
        LaunchPlan::NoProcess => {},
        other => panic!("expected NoProcess, got {:?}", other),
    }
}

#[test]
fn isolation_kind_parses_with_plain_fallback() {
    assert_eq!(parse_isolation("systemd"), IsolationKind::Systemd);
    assert_eq!(parse_isolation("chroot"), IsolationKind::Chroot);
    assert_eq!(parse_isolation("anything"), IsolationKind::Plain);
}

#[test]
fn persisted_record_mirrors_the_manifest() {
    let run = RunSection { command: "./app".to_string(), port: Some(8080) };
    let mut config = minimal_config(Some(run), None);
    config.health = Some(HealthSection { url: "http://localhost:8080/hp".to_string(), timeout: None });
    config.isolation = Some(IsolationSection { kind: "chroot".to_string() });
    let state = deploy_state(&config, Some(555));
    assert_eq!(state.name, "app");
    assert_eq!(state.version, "1.0");
    assert_eq!(state.status, AppStatus::Running);
    assert_eq!(state.pid, Some(555));
    assert_eq!(state.port, Some(8080));
    assert_eq!(state.health_url.as_deref(), Some("http://localhost:8080/hp"));
    assert_eq!(state.isolation, Some(IsolationKind::Chroot));
    assert_eq!(determine_health_url(&None), None);
}

#[test]
fn pipeline_walks_all_stages_to_success() {
    let mut stage = DeployStage::Fetching;
    for _ in 0..9 {
        stage = deploy_next(stage, StageOutcome::Done);
    }
    match stage {
        DeployStage::Succeeded => {},
        other => panic!("expected Succeeded, got {:?}", other),
    }
}

#[test]
fn hard_stage_failure_aborts_the_pipeline() {
    let stage = deploy_next(DeployStage::Building, StageOutcome::Failed("Build failed".to_string()));
    match &stage {
        DeployStage::Failed(m) => assert_eq!(m, "Build failed"),
        other => panic!("expected Failed, got {:?}", other),
    }
    // Once failed, the pipeline stays failed.
    let stage = deploy_next(stage, StageOutcome::Done);
    match stage {
        DeployStage::Failed(m) => assert_eq!(m, "Build failed"),
        other => panic!("expected Failed, got {:?}", other),
    }
}

#[test]
fn hooks_never_fail_the_pipeline() {
    let s = deploy_next(DeployStage::PreHook, StageOutcome::Failed("hook broke".to_string()));
    match s {
        DeployStage::Building => {},
        other => panic!("expected Building, got {:?}", other),
    }
    let s = deploy_next(DeployStage::PostHook, StageOutcome::Failed("hook broke".to_string()));
    match s {
        DeployStage::Succeeded => {},
        other => panic!("expected Succeeded, got {:?}", other),
    }
}

#[test]
fn deploy_scenario_github_run_app() {
    // deploy{repo:"acme/app", forge:"github", auth_password:"tok"} against
    // a manifest declaring [app] name/version and [run] command.
    let req = DeployRequest {
        msg_type: "deploy".to_string(),
        repo: "acme/app".to_string(),
        forge: "github".to_string(),
        auth_user: None,
        auth_password: Some("tok".to_string()),
        daemon_token: Some("ignored-here".to_string()),
    };
    let fetch = plan_fetch(&req);
    assert_eq!(fetch.url, "https://api.github.com/repos/acme/app/tarball/main");
    match fetch.auth {
        FetchAuth::Bearer(t) => assert_eq!(t, "tok"),
        other => panic!("expected Bearer, got {:?}", other),
    }

    let run = RunSection { command: "./app".to_string(), port: None };
    let config = minimal_config(Some(run), None);
    let dir = "/apps/acme_app";
    match plan_launch(&config, dir, &vec![]) {
        LaunchPlan::Spawn(plan) => {
            assert_shell_plan(&plan, "./app");
            assert_eq!(plan.dir, dir);
        },
        other => panic!("expected Spawn, got {:?}", other),
    }
    let state = deploy_state(&config, Some(777));
    assert_eq!(state.status, AppStatus::Running);

    let resp = deploy_response(Ok(dir.to_string()));
    assert!(resp.success);
    assert_eq!(resp.message, "Deployed to /apps/acme_app");
    assert_eq!(resp.app_dir.as_deref(), Some("/apps/acme_app"));
}
