use flared::devices::{
    auth_from_inputs, get_device, make_device, next_device_id, note_discovered, parse_range,
    remove_device, RangeError,
};
use flared::netpolicy::{is_local, parse_ipv4};
use flared::paths::{app_dir, auth_path, config_path, normalize_name, tokens_path};
use flared::protocol::{classify_msg_type, deploy_gate, parse_action, ManageAction, MsgKind};
use flared::provision::{setup, ProvisionPlan};
use flared::strutil::{parse_u32, replace_char, starts_with, trim};
use flared::tokens::TokenStore;
use flared::types::{DatabaseSection, Device, FlareConfig};

fn device(id: u32, name: Option<&str>, host: &str) -> Device {
    Device {
        id,
        name: name.map(|n| n.to_string()),
        host: host.to_string(),
        port: 7530,
        token: None,
    }
}

#[test]
fn range_expressions_parse() {
    assert_eq!(parse_range("0-2").unwrap(), vec![0, 1, 2]);
    assert_eq!(parse_range("1,3-4,7").unwrap(), vec![1, 3, 4, 7]);
    assert_eq!(parse_range("5").unwrap(), vec![5]);
    assert_eq!(parse_range("3-1").unwrap(), vec![]);
    assert_eq!(parse_range("1-2-3").unwrap_err(), RangeError::InvalidRange);
    assert_eq!(parse_range("x").unwrap_err(), RangeError::BadNumber);
    assert_eq!(parse_range("1,,2").unwrap_err(), RangeError::BadNumber);
}

#[test]
fn u32_parsing_edges() {
    assert_eq!(parse_u32("4294967295"), Some(u32::MAX));
    assert_eq!(parse_u32("4294967296"), None);
    assert_eq!(parse_u32("007"), Some(7));
    assert_eq!(parse_u32(""), None);
    assert_eq!(parse_u32("12a"), None);
}

#[test]
fn next_id_is_one_past_the_greatest() {
    let empty = FlareConfig { devices: vec![] };
    assert_eq!(next_device_id(&empty), 1);
    let cfg = FlareConfig { devices: vec![device(2, None, "a"), device(7, None, "b")] };
    assert_eq!(next_device_id(&cfg), 8);
}

#[test]
fn device_lookup_by_id_then_name() {
    let cfg = FlareConfig {
        devices: vec![device(1, Some("pi"), "10.0.0.2"), device(2, Some("2"), "10.0.0.3")],
    };
    assert_eq!(get_device(&cfg, "1").unwrap().host, "10.0.0.2");
    // A numeric query matches ids first, even when a name looks numeric.
    assert_eq!(get_device(&cfg, "2").unwrap().host, "10.0.0.3");
    assert_eq!(get_device(&cfg, "pi").unwrap().id, 1);
    assert_eq!(
        get_device(&cfg, "nope").unwrap_err(),
        "Device not found: nope"
    );
}

#[test]
fn device_removal_by_id_or_name() {
    let mut cfg = FlareConfig {
        devices: vec![device(1, Some("pi"), "10.0.0.2"), device(2, None, "10.0.0.3")],
    };
    let gone = remove_device(&mut cfg, "pi").expect("found by name");
    assert_eq!(gone.id, 1);
    assert_eq!(cfg.devices.len(), 1);
    assert!(remove_device(&mut cfg, "1").is_none());
    let gone = remove_device(&mut cfg, "2").expect("found by id");
    assert_eq!(gone.host, "10.0.0.3");
    assert!(cfg.devices.is_empty());
}

#[test]
fn discovery_reply_matches_saved_device_by_address() {
    let cfg = FlareConfig { devices: vec![device(1, Some("pi"), "10.0.0.2")] };
    let hit = flared::devices::find_saved(&cfg, "10.0.0.2", 7530).expect("saved");
    assert_eq!(hit.id, 1);
    assert!(flared::devices::find_saved(&cfg, "10.0.0.2", 7000).is_none());
    assert!(flared::devices::find_saved(&cfg, "10.0.0.3", 7530).is_none());
}

#[test]
fn discovery_replies_deduplicate_by_host() {
    let mut found = Vec::new();
    note_discovered(&mut found, "10.0.0.5".to_string(), 7530);
    note_discovered(&mut found, "10.0.0.5".to_string(), 7530);
    note_discovered(&mut found, "10.0.0.6".to_string(), 7530);
    assert_eq!(found.len(), 2);
    assert_eq!(found[0].host, "10.0.0.5");
    assert_eq!(found[1].host, "10.0.0.6");
}

#[test]
fn synced_device_record() {
    let cfg = FlareConfig { devices: vec![device(3, None, "x")] };
    let d = make_device(&cfg, "  shelf \n", "10.0.0.9".to_string(), 7530, "tok".to_string());
    assert_eq!(d.id, 4);
    assert_eq!(d.name.as_deref(), Some("shelf"));
    assert_eq!(d.host, "10.0.0.9");
    assert_eq!(d.token.as_deref(), Some("tok"));
    let unnamed = make_device(&cfg, "  \n", "h".to_string(), 7530, "t".to_string());
    assert_eq!(unnamed.name, None);
}

#[test]
fn login_inputs_trim_and_drop_empties() {
    let auth = auth_from_inputs("  me \n", "pw".to_string(), " \n");
    assert_eq!(auth.user.as_deref(), Some("me"));
    assert_eq!(auth.password.as_deref(), Some("pw"));
    assert_eq!(auth.forge, None);
    let empty = auth_from_inputs("", String::new(), "github\n");
    assert_eq!(empty.user, None);
    assert_eq!(empty.password, None);
    assert_eq!(empty.forge.as_deref(), Some("github"));
}

#[test]
fn trust_policy_for_local_and_private_addresses() {
    assert!(is_local("localhost"));
    assert!(is_local("127.0.0.1"));
    assert!(is_local("10.1.2.3"));
    assert!(is_local("172.16.0.1"));
    assert!(is_local("172.31.255.255"));
    assert!(is_local("192.168.1.10"));
    assert!(is_local("::1"));
    assert!(!is_local("172.32.0.1"));
    assert!(!is_local("8.8.8.8"));
    assert!(!is_local("example.com"));
    assert!(!is_local("256.0.0.1"));
}

#[test]
fn ipv4_parsing_is_strict() {
    assert_eq!(parse_ipv4("1.2.3.4"), Some((1, 2, 3, 4)));
    assert_eq!(parse_ipv4("1.2.3"), None);
    assert_eq!(parse_ipv4("1.2.3.4.5"), None);
    assert_eq!(parse_ipv4("01.2.3.4"), None);
    assert_eq!(parse_ipv4("1.2.3.256"), None);
}

#[test]
fn message_types_classify() {
    assert_eq!(classify_msg_type("register_token"), MsgKind::RegisterToken);
    assert_eq!(classify_msg_type("deploy"), MsgKind::Deploy);
    assert_eq!(classify_msg_type("manage"), MsgKind::Manage);
    assert_eq!(classify_msg_type("gossip"), MsgKind::Unknown);
    assert_eq!(classify_msg_type(""), MsgKind::Unknown);
}

#[test]
fn manage_actions_parse() {
    assert_eq!(parse_action("start").unwrap(), ManageAction::Start);
    assert_eq!(parse_action("stop").unwrap(), ManageAction::Stop);
    assert_eq!(parse_action("restart").unwrap(), ManageAction::Restart);
    assert_eq!(parse_action("rollback").unwrap(), ManageAction::Rollback);
    assert!(parse_action("reboot").is_err());
}

#[test]
fn deploy_gate_rejects_unenrolled_token() {
    let store = TokenStore::new();
    let resp = deploy_gate(&store, &Some("whatever".to_string())).expect("rejected");
    assert!(!resp.success);
    assert_eq!(resp.message, "Invalid token");
    assert_eq!(resp.app_dir, None);
}

#[test]
fn database_plans_fill_documented_defaults() {
    let db = DatabaseSection {
        kind: "postgres".to_string(),
        name: None,
        user: None,
        password: None,
        port: None,
        preseed: Some("seed.sql".to_string()),
    };
    match setup(&db, "/apps/app").unwrap() {
        ProvisionPlan::Postgres { container, db_name, user, password, port, preseed } => {
            assert_eq!(container, "flare-postgres-db");
            assert_eq!(db_name, "postgres");
            assert_eq!(user, "postgres");
            assert_eq!(password, "password");
            assert_eq!(port, 5432);
            assert_eq!(preseed.as_deref(), Some("seed.sql"));
        },
        other => panic!("expected Postgres, got {:?}", other),
    }

    let db = DatabaseSection {
        kind: "mysql".to_string(),
        name: Some("shop".to_string()),
        user: None,
        password: Some("s3cret".to_string()),
        port: Some(3307),
        preseed: None,
    };
    match setup(&db, "/apps/app").unwrap() {
        ProvisionPlan::Mysql { container, db_name, user, password, port, preseed } => {
            assert_eq!(container, "flare-shop-db");
            assert_eq!(db_name, "shop");
            assert_eq!(user, "root");
            assert_eq!(password, "s3cret");
            assert_eq!(port, 3307);
            assert_eq!(preseed, None);
        },
        other => panic!("expected Mysql, got {:?}", other),
    }

    let db = DatabaseSection {
        kind: "sqlite".to_string(),
        name: None,
        user: None,
        password: None,
        port: None,
        preseed: None,
    };
    match setup(&db, "/apps/app").unwrap() {
        ProvisionPlan::Sqlite { path, .. } => assert_eq!(path, "/apps/app/app.db"),
        other => panic!("expected Sqlite, got {:?}", other),
    }

    let db = DatabaseSection {
        kind: "oracle".to_string(),
        name: None,
        user: None,
        password: None,
        port: None,
        preseed: None,
    };
    assert_eq!(setup(&db, "/apps/app").unwrap_err(), "Unknown database: oracle");
}

#[test]
fn app_paths_are_normalized() {
    assert_eq!(normalize_name("acme/app"), "acme_app");
    assert_eq!(app_dir("/root/.flare/apps", "acme/app"), "/root/.flare/apps/acme_app");
    assert_eq!(config_path("/root/.flare"), "/root/.flare/flare.conf");
    assert_eq!(tokens_path("/root/.flare"), "/root/.flare/daemon_tokens.toml");
    assert_eq!(auth_path("/root/.flare"), "/root/.flare/auth.toml");
}

#[test]
fn string_helpers_behave() {
    assert_eq!(trim("  a b \t\n"), "a b");
    assert_eq!(trim(" \t "), "");
    assert_eq!(replace_char("a/b/c", '/', '_'), "a_b_c");
    assert!(starts_with("/health/app", "/health"));
    assert!(!starts_with("/heal", "/health"));
}
