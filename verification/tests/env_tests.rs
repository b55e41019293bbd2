use flared::envfile::{parse_dot_env, parse_env_line, prepare_env};

#[test]
fn dot_env_lines_parse_with_quotes_and_comments() {
    let content = "# a comment\n\nDB_URL = \"postgres://x\" \nNAME='quoted'\nPLAIN=value\nbroken line\n";
    let vars = parse_dot_env(content);
    assert_eq!(
        vars,
        vec![
            ("DB_URL".to_string(), "postgres://x".to_string()),
            ("NAME".to_string(), "quoted".to_string()),
            ("PLAIN".to_string(), "value".to_string()),
        ]
    );
}

#[test]
fn env_line_edge_cases() {
    assert_eq!(parse_env_line("  # note"), None);
    assert_eq!(parse_env_line("   "), None);
    assert_eq!(parse_env_line("no equals"), None);
    assert_eq!(
        parse_env_line(" KEY = a=b "),
        Some(("KEY".to_string(), "a=b".to_string()))
    );
}

#[test]
fn manifest_value_overrides_dot_env_key() {
    let dot = "PORT=1000\nKEEP=yes\n";
    let conf = vec![("PORT".to_string(), "2000".to_string())];
    let out = prepare_env(dot, Some(&conf), &vec![]);
    // Later entries override earlier ones: the manifest's PORT wins.
    let find_last = |k: &str| {
        out.iter().rev().find(|e| e.0 == k).map(|e| e.1.clone())
    };
    assert_eq!(find_last("PORT").as_deref(), Some("2000"));
    assert_eq!(find_last("KEEP").as_deref(), Some("yes"));
}

#[test]
fn env_reference_resolves_from_dot_env_then_process() {
    let dot = "SECRET=from-dot-env\n";
    let conf = vec![
        ("A".to_string(), "$ENV:SECRET".to_string()),
        ("B".to_string(), "$ENV:ONLY_PROC".to_string()),
        ("C".to_string(), "$ENV:MISSING".to_string()),
    ];
    let proc_env = vec![("ONLY_PROC".to_string(), "from-process".to_string())];
    let out = prepare_env(dot, Some(&conf), &proc_env);
    let find_last = |k: &str| {
        out.iter().rev().find(|e| e.0 == k).map(|e| e.1.clone())
    };
    assert_eq!(find_last("A").as_deref(), Some("from-dot-env"));
    assert_eq!(find_last("B").as_deref(), Some("from-process"));
    assert_eq!(find_last("C").as_deref(), Some(""));
}

#[test]
fn missing_dot_env_contributes_nothing() {
    let out = prepare_env("", None, &vec![]);
    assert!(out.is_empty());
}
