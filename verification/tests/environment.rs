use cargo_pgoe::environment::Environment;

fn pair(name: &str, value: &str) -> (String, String) {
    (name.to_string(), value.to_string())
}

#[test]
fn new_environment_sets_nothing() {
    assert!(Environment::new().entries().is_empty());
}

#[test]
fn variables_are_kept_in_the_order_they_were_set() {
    let env = Environment::new()
        .set("RUSTFLAGS".to_string(), "-Cx".to_string())
        .set("CARGO_TERM_COLOR".to_string(), "always".to_string());
    assert_eq!(env.entries(), &vec![pair("RUSTFLAGS", "-Cx"), pair("CARGO_TERM_COLOR", "always")]);
}

#[test]
fn setting_a_name_again_replaces_its_value() {
    let env = Environment::new()
        .set("A".to_string(), "1".to_string())
        .set("B".to_string(), "2".to_string())
        .set("A".to_string(), "3".to_string());
    assert_eq!(env.entries(), &vec![pair("A", "3"), pair("B", "2")]);
    let names: Vec<&String> = env.entries().iter().map(|entry| &entry.0).collect();
    assert_eq!(names.len(), 2);
    assert_ne!(names[0], names[1]);
}

#[test]
fn names_differ_by_case_and_by_length() {
    let env = Environment::new()
        .set("path".to_string(), "a".to_string())
        .set("PATH".to_string(), "b".to_string())
        .set("PATH2".to_string(), "c".to_string())
        .set("".to_string(), "d".to_string());
    assert_eq!(env.entries().len(), 4);
}
