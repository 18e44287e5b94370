use isolate_host::options::{
    Environment, IsolateOptions, DEFAULT_STARTUP_TIMEOUT_MS, DEFAULT_TIMEOUT_MS,
};

#[test]
fn a_new_environment_has_no_variable() {
    let env = Environment::new();
    assert_eq!(env.get(&"PATH".to_string()), None);
    assert_eq!(env.to_vec(), Vec::<(String, String)>::new());
}

#[test]
fn insert_then_get() {
    let mut env = Environment::new();
    env.insert("A".to_string(), "1".to_string());
    env.insert("B".to_string(), "2".to_string());
    assert_eq!(env.get(&"A".to_string()), Some("1".to_string()));
    assert_eq!(env.get(&"B".to_string()), Some("2".to_string()));
    assert_eq!(env.get(&"a".to_string()), None);
}

#[test]
fn a_later_value_replaces_an_earlier_one() {
    let mut env = Environment::new();
    env.insert("A".to_string(), "1".to_string());
    env.insert("A".to_string(), "2".to_string());
    assert_eq!(env.get(&"A".to_string()), Some("2".to_string()));
}

#[test]
fn from_entries_reads_a_list() {
    let env = Environment::from_entries(Some(vec![
        ("HOSTNAME".to_string(), "pop-testing".to_string()),
        ("KBD_MODEL".to_string(), String::new()),
        ("HOSTNAME".to_string(), "other".to_string()),
    ]));
    assert_eq!(env.get(&"HOSTNAME".to_string()), Some("other".to_string()));
    assert_eq!(env.get(&"KBD_MODEL".to_string()), Some(String::new()));
    assert_eq!(env.get(&"LANG".to_string()), None);
}

#[test]
fn no_entries_stand_for_no_variable() {
    let env = Environment::from_entries(None);
    assert_eq!(env, Environment::new());
    assert_eq!(Environment::from_entries(Some(Vec::new())), Environment::new());
}

#[test]
fn to_vec_gives_the_pairs_in_order() {
    let mut env = Environment::new();
    env.insert("B".to_string(), "2".to_string());
    env.insert("A".to_string(), "1".to_string());
    assert_eq!(
        env.to_vec(),
        vec![("B".to_string(), "2".to_string()), ("A".to_string(), "1".to_string())]
    );
}

#[test]
fn options_start_with_the_default_budgets() {
    assert_eq!(DEFAULT_TIMEOUT_MS, 1000);
    assert_eq!(DEFAULT_STARTUP_TIMEOUT_MS, 2000);
    let o = IsolateOptions::new("code".to_string());
    assert_eq!(o.source, "code");
    assert_eq!(o.timeout_ms, 1000);
    assert_eq!(o.startup_timeout_ms, 2000);
    assert_eq!(o.heap_limit, None);
    assert!(!o.allow_code_generation);
    assert_eq!(o.metadata, None);
    assert_eq!(o.environment, Environment::new());
    assert_eq!(o.snapshot, None);
}

#[test]
fn each_builder_changes_its_field_only() {
    let mut env = Environment::new();
    env.insert("K".to_string(), "V".to_string());
    let o = IsolateOptions::new("code".to_string())
        .timeout(50)
        .startup_timeout(200)
        .heap_limit(128 * 1024 * 1024)
        .allow_code_generation(true)
        .metadata(Some(("deployment".to_string(), "function".to_string())))
        .environment_variables(env)
        .snapshot(vec![1, 2, 3]);
    assert_eq!(o.source, "code");
    assert_eq!(o.timeout_ms, 50);
    assert_eq!(o.startup_timeout_ms, 200);
    assert_eq!(o.heap_limit, Some(134217728));
    assert!(o.allow_code_generation);
    assert_eq!(o.metadata, Some(("deployment".to_string(), "function".to_string())));
    assert_eq!(o.environment.get(&"K".to_string()), Some("V".to_string()));
    assert_eq!(o.snapshot, Some(vec![1, 2, 3]));
    let o = o.with_source("other".to_string());
    assert_eq!(o.source, "other");
    assert_eq!(o.timeout_ms, 50);
}
