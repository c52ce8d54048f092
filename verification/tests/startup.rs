use sidecar::launch::{LaunchMode, LaunchPlan};
use sidecar::startup::{Environment, Request, Startup};
use sidecar::supervisor::{Phase, Supervisor};

#[derive(Debug, PartialEq, Eq)]
struct FakeChild {
    program: String,
    signals: u32,
}

struct Host {
    disk: Vec<&'static str>,
    database_path: &'static str,
    directory_ready: bool,
    spawn_succeeds: bool,
    probed: Vec<String>,
    prepared: u32,
    launched: Vec<LaunchPlan>,
    supervisor: Supervisor<FakeChild>,
}

fn host(disk: &[&'static str]) -> Host {
    Host {
        disk: disk.to_vec(),
        database_path: "/data/app/dev.sqlite3",
        directory_ready: true,
        spawn_succeeds: true,
        probed: Vec::new(),
        prepared: 0,
        launched: Vec::new(),
        supervisor: Supervisor::new(),
    }
}

fn environment(runtime: Option<&str>, service: Option<&str>, exe_dir: Option<&str>) -> Environment {
    Environment {
        packaged_runtime: runtime.map(str::to_string),
        packaged_service: service.map(str::to_string),
        exe_dir: exe_dir.map(str::to_string),
    }
}

fn packaged_in(dir: &str, exe_dir: &str) -> Environment {
    environment(
        Some(format!("{}/node", dir).as_str()),
        Some(format!("{}/service-dist", dir).as_str()),
        Some(exe_dir),
    )
}

fn run(host: &mut Host, env: Environment) -> Request {
    let mut startup = Startup::begin(env);
    for _ in 0..64 {
        match startup.request() {
            Request::Probe(path) => {
                startup.probed(host.disk.contains(&path.as_str()));
                host.probed.push(path);
            }
            Request::PrepareData => {
                host.prepared += 1;
                startup.data_prepared(host.database_path.to_string(), host.directory_ready);
            }
            Request::Launch(plan) => {
                if host.spawn_succeeds {
                    let child = FakeChild { program: plan.program.clone(), signals: 0 };
                    assert_eq!(startup.launched(&mut host.supervisor, child), Ok(()));
                } else {
                    startup.launch_failed();
                }
                host.launched.push(plan);
            }
            end => {
                assert_eq!(startup.request(), end);
                startup.probed(true);
                startup.data_prepared("/other/db".to_string(), true);
                startup.launch_failed();
                let stray = FakeChild { program: "stray".to_string(), signals: 0 };
                assert!(startup.launched(&mut host.supervisor, stray).is_err());
                assert_eq!(startup.request(), end);
                return end;
            }
        }
    }
    panic!("the startup sequence does not end");
}

fn close(host: &mut Host) -> bool {
    match host.supervisor.request_termination() {
        Some(child) => {
            child.signals += 1;
            true
        }
        None => false,
    }
}

#[test]
fn scenario_packaged_resources_are_launched() {
    let mut host = host(&["/app/resources/node", "/app/resources/service-dist"]);
    let end = run(&mut host, packaged_in("/app/resources", "/app/bin"));
    assert_eq!(end, Request::Done(Some(LaunchMode::Bundled)));
    assert_eq!(host.probed, vec!["/app/resources/node", "/app/resources/service-dist"]);
    assert_eq!(host.launched.len(), 1);
    let plan = &host.launched[0];
    assert_eq!(plan.mode, LaunchMode::Bundled);
    assert_eq!(plan.program, "/app/resources/node");
    assert_eq!(plan.working_dir, "/app/resources/service-dist");
    assert_eq!(plan.arguments(), vec!["src/index.js".to_string()]);
    assert_eq!(
        plan.environment(),
        vec![
            ("DATABASE_PATH".to_string(), "/data/app/dev.sqlite3".to_string()),
            ("PORT".to_string(), "3001".to_string()),
        ]
    );
    assert!(!plan.inherits_output());
    assert_eq!(host.supervisor.phase(), Phase::Spawned);
    assert_eq!(
        host.supervisor.handle(),
        Some(&FakeChild { program: "/app/resources/node".to_string(), signals: 0 })
    );
}

#[test]
fn scenario_sibling_resources_are_launched() {
    let mut host = host(&[
        "/app/bin/../resources/node",
        "/app/bin/../resources/service-dist",
    ]);
    let end = run(&mut host, environment(None, None, Some("/app/bin")));
    assert_eq!(end, Request::Done(Some(LaunchMode::Bundled)));
    assert_eq!(
        host.probed,
        vec![
            "/app/bin/node",
            "/app/bin/_up_/node",
            "/app/bin/../resources/node",
            "/app/bin/service-dist",
            "/app/bin/_up_/service-dist",
            "/app/bin/../resources/service-dist",
        ]
    );
    assert_eq!(
        host.launched,
        vec![LaunchPlan::bundled(
            "/app/bin/../resources/node".to_string(),
            "/app/bin/../resources/service-dist".to_string(),
            "/data/app/dev.sqlite3".to_string(),
        )]
    );
    assert_eq!(host.supervisor.phase(), Phase::Spawned);
}

#[test]
fn scenario_sibling_resources_with_a_missing_packaged_directory() {
    let mut host = host(&[
        "/app/bin/../resources/node",
        "/app/bin/../resources/service-dist",
    ]);
    let end = run(&mut host, packaged_in("/gone", "/app/bin"));
    assert_eq!(end, Request::Done(Some(LaunchMode::Bundled)));
    assert_eq!(host.probed.len(), 8);
    assert_eq!(host.probed[0], "/gone/node");
    assert_eq!(host.probed[4], "/gone/service-dist");
    assert_eq!(host.launched.len(), 1);
    assert_eq!(host.launched[0].program, "/app/bin/../resources/node");
    assert_eq!(host.launched[0].working_dir, "/app/bin/../resources/service-dist");
}

#[test]
fn scenario_development_tree_is_launched() {
    let mut host = host(&["/src/web/target/debug/../../../service"]);
    let end = run(&mut host, packaged_in("/src/web/target/debug", "/src/web/target/debug"));
    assert_eq!(end, Request::Done(Some(LaunchMode::Development)));
    assert_eq!(host.probed.len(), 9);
    assert_eq!(host.probed[8], "/src/web/target/debug/../../../service");
    assert_eq!(host.launched.len(), 1);
    let plan = &host.launched[0];
    assert_eq!(plan.mode, LaunchMode::Development);
    assert_eq!(plan.program, "node");
    assert_eq!(plan.working_dir, "/src/web/target/debug/../../../service");
    assert_eq!(plan.arguments(), vec!["src/index.js".to_string()]);
    assert_eq!(
        plan.environment(),
        vec![
            ("DATABASE_PATH".to_string(), "/data/app/dev.sqlite3".to_string()),
            ("PORT".to_string(), "3001".to_string()),
        ]
    );
    assert!(plan.inherits_output());
    assert_eq!(host.supervisor.phase(), Phase::Spawned);
    assert_eq!(
        host.supervisor.handle(),
        Some(&FakeChild { program: "node".to_string(), signals: 0 })
    );
}

#[test]
fn scenario_nothing_to_launch() {
    let mut host = host(&["/unrelated"]);
    let end = run(&mut host, packaged_in("/app/resources", "/app/bin"));
    assert_eq!(end, Request::Done(None));
    assert_eq!(host.probed.len(), 9);
    assert_eq!(host.prepared, 0);
    assert!(host.launched.is_empty());
    assert_eq!(host.supervisor.phase(), Phase::Unspawned);
    assert_eq!(host.supervisor.handle(), None);
    assert!(!close(&mut host));
    assert_eq!(host.supervisor.phase(), Phase::Unspawned);
}

#[test]
fn nothing_is_known_of_the_environment() {
    let mut host = host(&["/app/bin/node"]);
    let end = run(&mut host, environment(None, None, None));
    assert_eq!(end, Request::Done(None));
    assert!(host.probed.is_empty());
    assert!(host.launched.is_empty());
    assert_eq!(host.supervisor.phase(), Phase::Unspawned);
}

#[test]
fn bundled_launch_leaves_the_development_tree_alone() {
    let mut host = host(&[
        "/app/resources/node",
        "/app/resources/service-dist",
        "/app/bin/../../../service",
    ]);
    let end = run(&mut host, packaged_in("/app/resources", "/app/bin"));
    assert_eq!(end, Request::Done(Some(LaunchMode::Bundled)));
    assert!(!host.probed.contains(&"/app/bin/../../../service".to_string()));
    assert_eq!(host.launched.len(), 1);
    assert_eq!(host.launched[0].mode, LaunchMode::Bundled);
}

#[test]
fn a_runtime_without_a_service_falls_back_to_the_tree() {
    let mut host = host(&["/app/resources/node", "/app/bin/../../../service"]);
    let end = run(&mut host, packaged_in("/app/resources", "/app/bin"));
    assert_eq!(end, Request::Done(Some(LaunchMode::Development)));
    assert_eq!(host.launched.len(), 1);
    assert_eq!(host.launched[0].program, "node");
    assert_eq!(host.launched[0].working_dir, "/app/bin/../../../service");
}

#[test]
fn a_service_without_a_runtime_is_not_launched() {
    let mut host = host(&["/app/resources/service-dist"]);
    let end = run(&mut host, packaged_in("/app/resources", "/app/bin"));
    assert_eq!(end, Request::Done(None));
    assert!(host.launched.is_empty());
}

#[test]
fn a_failed_bundled_launch_aborts_without_fallback() {
    let mut host = host(&[
        "/app/resources/node",
        "/app/resources/service-dist",
        "/app/bin/../../../service",
    ]);
    host.spawn_succeeds = false;
    let end = run(&mut host, packaged_in("/app/resources", "/app/bin"));
    assert_eq!(end, Request::Abort(LaunchMode::Bundled));
    assert_eq!(host.launched.len(), 1);
    assert!(!host.probed.contains(&"/app/bin/../../../service".to_string()));
    assert_eq!(host.supervisor.phase(), Phase::Unspawned);
}

#[test]
fn a_failed_development_launch_aborts() {
    let mut host = host(&["/app/bin/../../../service"]);
    host.spawn_succeeds = false;
    let end = run(&mut host, packaged_in("/app/resources", "/app/bin"));
    assert_eq!(end, Request::Abort(LaunchMode::Development));
    assert_eq!(host.launched.len(), 1);
    assert_eq!(host.supervisor.phase(), Phase::Unspawned);
}

#[test]
fn a_missing_data_directory_does_not_stop_the_launch() {
    let mut host = host(&["/app/resources/node", "/app/resources/service-dist"]);
    host.directory_ready = false;
    let end = run(&mut host, packaged_in("/app/resources", "/app/bin"));
    assert_eq!(end, Request::Done(Some(LaunchMode::Bundled)));
    assert_eq!(host.prepared, 1);
    assert_eq!(host.launched.len(), 1);
    assert_eq!(host.launched[0].database_path, "/data/app/dev.sqlite3");
}

#[test]
fn the_data_is_prepared_once_before_the_launch() {
    let mut startup = Startup::begin(packaged_in("/app/resources", "/app/bin"));
    startup.probed(true);
    startup.probed(true);
    assert_eq!(startup.request(), Request::PrepareData);
    startup.data_prepared("/first/db".to_string(), true);
    startup.data_prepared("/second/db".to_string(), true);
    assert_eq!(
        startup.request(),
        Request::Launch(LaunchPlan::bundled(
            "/app/resources/node".to_string(),
            "/app/resources/service-dist".to_string(),
            "/first/db".to_string(),
        ))
    );
}

#[test]
fn reports_that_were_not_asked_for_are_ignored() {
    let mut supervisor: Supervisor<FakeChild> = Supervisor::new();
    let mut startup = Startup::begin(packaged_in("/app/resources", "/app/bin"));
    let first = Request::Probe("/app/resources/node".to_string());
    assert_eq!(startup.request(), first);
    startup.data_prepared("/db".to_string(), true);
    startup.launch_failed();
    let stray = FakeChild { program: "stray".to_string(), signals: 0 };
    assert_eq!(
        startup.launched(&mut supervisor, stray),
        Err(FakeChild { program: "stray".to_string(), signals: 0 })
    );
    assert_eq!(startup.request(), first);
    assert_eq!(supervisor.phase(), Phase::Unspawned);

    startup.probed(true);
    startup.probed(true);
    assert_eq!(startup.request(), Request::PrepareData);
    startup.probed(false);
    startup.launch_failed();
    assert_eq!(startup.request(), Request::PrepareData);

    startup.data_prepared("/db".to_string(), true);
    let launch = Request::Launch(LaunchPlan::bundled(
        "/app/resources/node".to_string(),
        "/app/resources/service-dist".to_string(),
        "/db".to_string(),
    ));
    assert_eq!(startup.request(), launch);
    startup.probed(false);
    startup.data_prepared("/other".to_string(), true);
    assert_eq!(startup.request(), launch);
}

#[test]
fn a_launch_is_not_taken_by_an_occupied_supervisor() {
    let mut supervisor = Supervisor::new();
    let earlier = FakeChild { program: "earlier".to_string(), signals: 0 };
    assert_eq!(supervisor.adopt(earlier), Ok(()));
    let mut startup = Startup::begin(packaged_in("/app/resources", "/app/bin"));
    startup.probed(true);
    startup.probed(true);
    startup.data_prepared("/db".to_string(), true);
    let late = FakeChild { program: "late".to_string(), signals: 0 };
    assert_eq!(
        startup.launched(&mut supervisor, late),
        Err(FakeChild { program: "late".to_string(), signals: 0 })
    );
    assert!(matches!(startup.request(), Request::Launch(_)));
    assert_eq!(
        supervisor.handle(),
        Some(&FakeChild { program: "earlier".to_string(), signals: 0 })
    );
}

#[test]
fn closing_after_startup_signals_the_launched_process() {
    let mut host = host(&["/app/resources/node", "/app/resources/service-dist"]);
    run(&mut host, packaged_in("/app/resources", "/app/bin"));
    assert!(close(&mut host));
    assert_eq!(host.supervisor.phase(), Phase::TerminationRequested);
    assert_eq!(
        host.supervisor.handle(),
        Some(&FakeChild { program: "/app/resources/node".to_string(), signals: 1 })
    );
    let again = FakeChild { program: "again".to_string(), signals: 0 };
    assert!(host.supervisor.adopt(again).is_err());
    assert!(close(&mut host));
    assert_eq!(
        host.supervisor.handle(),
        Some(&FakeChild { program: "/app/resources/node".to_string(), signals: 2 })
    );
}
