use flared::health::{health_verdict, HealthRegistry};
use flared::routing::{host_without_port, route_request, GatewayState, RouteDecision};

#[test]
fn host_port_suffix_is_stripped() {
    assert_eq!(host_without_port("example.com:8080"), "example.com");
    assert_eq!(host_without_port("example.com"), "example.com");
    assert_eq!(host_without_port(":80"), "");
}

#[test]
fn health_prefix_wins_over_any_host() {
    let mut table = GatewayState::new();
    table.set_static("site.test".to_string(), "/srv/site".to_string());
    match route_request(&table, "site.test", "/health/app") {
        RouteDecision::HealthProxy => {},
        other => panic!("expected HealthProxy, got {:?}", other),
    }
}

#[test]
fn static_site_routes_to_its_root() {
    let mut table = GatewayState::new();
    table.set_static("site.test".to_string(), "/srv/site".to_string());
    match route_request(&table, "site.test:80", "/index.html") {
        RouteDecision::ServeStatic(root) => assert_eq!(root, "/srv/site"),
        other => panic!("expected ServeStatic, got {:?}", other),
    }
}

#[test]
fn proxy_route_forwards_to_port() {
    let mut table = GatewayState::new();
    table.set_proxy("api.test".to_string(), 3000);
    match route_request(&table, "api.test", "/v1/things") {
        RouteDecision::ProxyTo(p) => assert_eq!(p, 3000),
        other => panic!("expected ProxyTo, got {:?}", other),
    }
}

#[test]
fn unknown_host_is_not_found() {
    let table = GatewayState::new();
    match route_request(&table, "nowhere.test", "/") {
        RouteDecision::NotFound => {},
        other => panic!("expected NotFound, got {:?}", other),
    }
}

#[test]
fn last_deploy_wins_and_entries_stay_complete() {
    let mut table = GatewayState::new();
    table.set_static("app.test".to_string(), "/srv/v1".to_string());
    table.set_proxy("other.test".to_string(), 9000);

    // A read between writes sees each host fully bound.
    match route_request(&table, "app.test", "/") {
        RouteDecision::ServeStatic(root) => assert_eq!(root, "/srv/v1"),
        other => panic!("expected ServeStatic, got {:?}", other),
    }

    // The next deploy of the same host flips it atomically to one
    // complete new target; the other host is untouched.
    table.set_proxy("app.test".to_string(), 4000);
    match route_request(&table, "app.test", "/") {
        RouteDecision::ProxyTo(p) => assert_eq!(p, 4000),
        other => panic!("expected ProxyTo, got {:?}", other),
    }
    match route_request(&table, "other.test", "/") {
        RouteDecision::ProxyTo(p) => assert_eq!(p, 9000),
        other => panic!("expected ProxyTo, got {:?}", other),
    }
}

#[test]
fn registry_answers_latest_pid() {
    let mut reg = HealthRegistry::new();
    reg.update_pid("app".to_string(), Some(100));
    reg.update_pid("app".to_string(), Some(200));
    reg.update_pid("static-site".to_string(), None);
    assert_eq!(reg.pid_of("app"), Some(200));
    assert_eq!(reg.pid_of("static-site"), None);
    assert_eq!(reg.pid_of("unknown"), None);
}

#[test]
fn health_verdict_reads_pid_and_probe() {
    let up = health_verdict("app".to_string(), Some(321), true, 1700000000);
    assert_eq!(up.status, "healthy");
    assert_eq!(up.pid, Some(321));
    assert_eq!(up.timestamp, 1700000000);

    let down = health_verdict("app".to_string(), Some(321), false, 0);
    assert_eq!(down.status, "unhealthy");

    // An unknown app is unhealthy with no pid, not an error.
    let unknown = health_verdict("ghost".to_string(), None, false, 0);
    assert_eq!(unknown.status, "unhealthy");
    assert_eq!(unknown.pid, None);
    assert_eq!(unknown.app, "ghost");
}
