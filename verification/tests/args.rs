use cargo_pgoe::args::{parse_cargo_args, DroppedFlag};

fn strings(items: &[&str]) -> Vec<String> {
    items.iter().map(|s| s.to_string()).collect()
}

#[test]
fn empty_arguments_stay_empty() {
    let parsed = parse_cargo_args(Vec::new());
    assert!(parsed.filtered().is_empty());
    assert!(!parsed.contains_target());
    assert!(parsed.dropped().is_empty());
}

#[test]
fn release_flag_is_dropped() {
    let parsed = parse_cargo_args(strings(&["--release", "--features", "fast"]));
    assert_eq!(parsed.filtered(), &strings(&["--features", "fast"]));
    assert!(!parsed.contains_target());
    assert_eq!(parsed.dropped(), &vec![DroppedFlag::Release]);
}

#[test]
fn message_format_is_dropped_with_its_value() {
    let parsed = parse_cargo_args(strings(&["-p", "core", "--message-format", "json", "--verbose"]));
    assert_eq!(parsed.filtered(), &strings(&["-p", "core", "--verbose"]));
    assert_eq!(parsed.dropped(), &vec![DroppedFlag::MessageFormat]);
}

#[test]
fn message_format_at_the_end_is_dropped_alone() {
    let parsed = parse_cargo_args(strings(&["--verbose", "--message-format"]));
    assert_eq!(parsed.filtered(), &strings(&["--verbose"]));
    assert_eq!(parsed.dropped(), &vec![DroppedFlag::MessageFormat]);
}

#[test]
fn target_flag_is_kept_and_marked() {
    let parsed = parse_cargo_args(strings(&["--target", "wasm32-unknown-unknown", "--locked"]));
    assert_eq!(parsed.filtered(), &strings(&["--target", "wasm32-unknown-unknown", "--locked"]));
    assert!(parsed.contains_target());
    assert!(parsed.dropped().is_empty());
}

#[test]
fn target_flag_taken_as_format_value_does_not_count() {
    let parsed = parse_cargo_args(strings(&["--message-format", "--target", "x86_64-pc-windows-msvc"]));
    assert_eq!(parsed.filtered(), &strings(&["x86_64-pc-windows-msvc"]));
    assert!(!parsed.contains_target());
    assert_eq!(parsed.dropped(), &vec![DroppedFlag::MessageFormat]);
}

#[test]
fn release_flag_taken_as_format_value_gives_one_notice() {
    let parsed = parse_cargo_args(strings(&["--message-format", "--release", "--release", "last"]));
    assert_eq!(parsed.filtered(), &strings(&["last"]));
    assert_eq!(parsed.dropped(), &vec![DroppedFlag::MessageFormat, DroppedFlag::Release]);
}

#[test]
fn format_flag_taken_as_format_value_starts_no_pair() {
    let parsed = parse_cargo_args(strings(&["--message-format", "--message-format", "kept"]));
    assert_eq!(parsed.filtered(), &strings(&["kept"]));
    assert_eq!(parsed.dropped(), &vec![DroppedFlag::MessageFormat]);
}

#[test]
fn owned_flags_are_removed_and_order_is_kept() {
    let parsed = parse_cargo_args(strings(&[
        "a",
        "--release",
        "b",
        "--message-format",
        "human",
        "c",
        "--target",
        "t",
        "--release",
        "d",
    ]));
    assert_eq!(parsed.filtered(), &strings(&["a", "b", "c", "--target", "t", "d"]));
    assert!(parsed.contains_target());
    assert_eq!(
        parsed.dropped(),
        &vec![DroppedFlag::Release, DroppedFlag::MessageFormat, DroppedFlag::Release]
    );
    assert!(!parsed.filtered().iter().any(|t| t == "--release" || t == "--message-format"));
}

#[test]
fn tokens_that_only_resemble_owned_flags_pass_through() {
    let parsed = parse_cargo_args(strings(&["--release=true", "--message-format=json", "-r", "--target=x"]));
    assert_eq!(
        parsed.filtered(),
        &strings(&["--release=true", "--message-format=json", "-r", "--target=x"])
    );
    assert!(!parsed.contains_target());
    assert!(parsed.dropped().is_empty());
}

#[test]
fn sanitizing_twice_changes_nothing() {
    let once = parse_cargo_args(strings(&["x", "--message-format", "json", "--release", "y"])).into_filtered();
    let twice = parse_cargo_args(once.clone());
    assert_eq!(twice.filtered(), &once);
    assert!(twice.dropped().is_empty());
}
