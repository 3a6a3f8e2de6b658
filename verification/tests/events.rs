use cargo_pgoe::event::{
    decode_line, get_artifact_kind, holds_line_feed, within_nesting_limit, Artifact, BuildEvent, MAX_NESTING,
};

fn artifact_line(name: &str, kinds: &str, executable: &str) -> String {
    format!(
        "{{\"reason\":\"compiler-artifact\",\"package_id\":\"demo 0.1.0 (path+file:///work/demo)\",\"manifest_path\":\"/work/demo/Cargo.toml\",\"target\":{{\"kind\":{},\"crate_types\":[\"bin\"],\"name\":\"{}\",\"src_path\":\"/work/demo/src/main.rs\",\"edition\":\"2021\",\"doc\":true,\"doctest\":false,\"test\":true}},\"profile\":{{\"opt_level\":\"3\",\"debuginfo\":0,\"debug_assertions\":false,\"overflow_checks\":false,\"test\":false}},\"features\":[],\"filenames\":[\"/work/demo/target/release/demo\"],\"executable\":{},\"fresh\":false}}",
        kinds, name, executable
    )
}

fn artifact_of(kinds: &[&str]) -> Artifact {
    Artifact { name: "demo".to_string(), executable: None, kind: kinds.iter().map(|k| k.to_string()).collect() }
}

#[test]
fn artifact_line_is_decoded_with_its_fields() {
    let line = artifact_line("demo", "[\"bin\"]", "\"/work/demo/target/release/demo\"");
    match decode_line(&line) {
        Some(BuildEvent::CompilerArtifact(artifact)) => {
            assert_eq!(artifact.name, "demo");
            assert_eq!(artifact.executable, Some("/work/demo/target/release/demo".to_string()));
            assert_eq!(artifact.kind, vec!["bin".to_string()]);
        }
        other => panic!("unexpected event: {:?}", other),
    }
}

#[test]
fn artifact_without_executable_is_decoded_without_one() {
    let line = artifact_line("core", "[\"lib\",\"rlib\"]", "null");
    match decode_line(&line) {
        Some(BuildEvent::CompilerArtifact(artifact)) => {
            assert_eq!(artifact.name, "core");
            assert_eq!(artifact.executable, None);
            assert_eq!(artifact.kind, vec!["lib".to_string(), "rlib".to_string()]);
        }
        other => panic!("unexpected event: {:?}", other),
    }
}

#[test]
fn build_finished_line_is_decoded() {
    assert!(matches!(
        decode_line("{\"reason\":\"build-finished\",\"success\":true}"),
        Some(BuildEvent::BuildFinished(true))
    ));
    assert!(matches!(
        decode_line("{\"reason\":\"build-finished\",\"success\":false}"),
        Some(BuildEvent::BuildFinished(false))
    ));
}

#[test]
fn other_messages_of_cargo_are_opaque() {
    let line = "{\"reason\":\"build-script-executed\",\"package_id\":\"demo 0.1.0 (path+file:///work/demo)\",\"linked_libs\":[],\"linked_paths\":[],\"cfgs\":[],\"env\":[],\"out_dir\":\"/work/demo/target/out\"}";
    assert!(matches!(decode_line(line), Some(BuildEvent::Other)));
}

#[test]
fn plain_text_is_told_apart_from_messages() {
    match decode_line("warning: something went by") {
        Some(BuildEvent::TextLine(text)) => assert_eq!(text, "warning: something went by"),
        other => panic!("unexpected event: {:?}", other),
    }
    assert!(matches!(decode_line("{\"reason\":\"build-finished\""), Some(BuildEvent::TextLine(_))));
    assert!(matches!(decode_line("{\"success\":true}"), Some(BuildEvent::TextLine(_))));
    assert!(matches!(decode_line("{\"reason\":\"build-finished\",\"success\":\"yes\"}"), Some(BuildEvent::TextLine(_))));
}

#[test]
fn compiler_message_keeps_its_texts() {
    let line = "{\"reason\":\"compiler-message\",\"package_id\":\"demo 0.1.0 (path+file:///work/demo)\",\"target\":{\"kind\":[\"bin\"],\"name\":\"demo\",\"src_path\":\"/work/demo/src/main.rs\"},\"message\":{\"message\":\"unused variable: `x`\",\"code\":null,\"level\":\"warning\",\"spans\":[],\"children\":[],\"rendered\":\"warning: unused variable: `x`\\n\"}}";
    match decode_line(line) {
        Some(BuildEvent::CompilerMessage(diagnostic)) => {
            assert_eq!(diagnostic.message, "unused variable: `x`");
            assert_eq!(diagnostic.rendered, Some("warning: unused variable: `x`\n".to_string()));
        }
        other => panic!("unexpected event: {:?}", other),
    }
}

#[test]
fn text_with_a_line_feed_is_not_one_line() {
    let finished = "{\"reason\":\"build-finished\",\"success\":true}";
    assert!(matches!(decode_line(finished), Some(BuildEvent::BuildFinished(true))));
    assert!(decode_line(&format!("{}\n", finished)).is_none());
    assert!(decode_line(&format!("{}\n{}", finished, finished)).is_none());
    assert!(decode_line(&format!("{}\nnot json", finished)).is_none());
    assert!(decode_line("\n").is_none());
    assert!(holds_line_feed("a\nb"));
    assert!(holds_line_feed("\n"));
    assert!(!holds_line_feed("a\rb"));
    assert!(!holds_line_feed(""));
}

#[test]
fn empty_line_gives_nothing() {
    assert!(decode_line("").is_none());
}

#[test]
fn deeply_nested_line_is_not_read() {
    let shallow = format!("{}{}", "[".repeat(MAX_NESTING), "]".repeat(MAX_NESTING));
    let deep = format!("{}{}", "[".repeat(MAX_NESTING + 1), "]".repeat(MAX_NESTING + 1));
    let very_deep = "[".repeat(200_000);
    assert!(matches!(decode_line(&shallow), Some(BuildEvent::TextLine(_))));
    assert!(decode_line(&deep).is_none());
    assert!(decode_line(&very_deep).is_none());
}

#[test]
fn nesting_counts_open_arrays_and_objects() {
    assert_eq!(MAX_NESTING, 127);
    assert!(within_nesting_limit(""));
    assert!(within_nesting_limit("plain text"));
    assert!(within_nesting_limit(&"[]".repeat(1000)));
    assert!(within_nesting_limit(&"{".repeat(127)));
    assert!(!within_nesting_limit(&"{".repeat(128)));
    assert!(!within_nesting_limit(&format!("{}{}", "[{".repeat(64), "}]".repeat(64))));
    assert!(within_nesting_limit(&format!("{}[{}", "[{".repeat(63), "}]".repeat(63))));
}

#[test]
fn brackets_inside_strings_do_not_nest() {
    let quoted = format!("{{\"text\":\"{}\"}}", "[".repeat(500));
    assert!(within_nesting_limit(&quoted));
    let escaped_quote = format!("{{\"text\":\"a\\\"{}\"}}", "{".repeat(500));
    assert!(within_nesting_limit(&escaped_quote));
    let escaped_backslash = format!("[\"a\\\\\"{}", "[".repeat(127));
    assert!(!within_nesting_limit(&escaped_backslash));
    let closed_early = format!("\"a\"{}", "[".repeat(128));
    assert!(!within_nesting_limit(&closed_early));
}

#[test]
fn closing_brackets_come_back_up() {
    let line = format!("{}{}{}", "[".repeat(100), "]".repeat(100), "[".repeat(100));
    assert!(within_nesting_limit(&line));
    let unbalanced = format!("{}{}", "]".repeat(50), "[".repeat(128));
    assert!(!within_nesting_limit(&unbalanced));
}

#[test]
fn lib_and_bench_is_a_benchmark() {
    assert_eq!(get_artifact_kind(&artifact_of(&["lib", "bench"])), "benchmark");
}

#[test]
fn each_kind_has_its_label() {
    assert_eq!(get_artifact_kind(&artifact_of(&["bin"])), "binary");
    assert_eq!(get_artifact_kind(&artifact_of(&["bench"])), "benchmark");
    assert_eq!(get_artifact_kind(&artifact_of(&["example"])), "example");
    assert_eq!(get_artifact_kind(&artifact_of(&["lib"])), "artifact");
    assert_eq!(get_artifact_kind(&artifact_of(&["proc-macro", "test"])), "artifact");
    assert_eq!(get_artifact_kind(&artifact_of(&[])), "artifact");
}

#[test]
fn bin_counts_before_bench_and_bench_before_example() {
    assert_eq!(get_artifact_kind(&artifact_of(&["bench", "bin"])), "binary");
    assert_eq!(get_artifact_kind(&artifact_of(&["example", "bench"])), "benchmark");
    assert_eq!(get_artifact_kind(&artifact_of(&["example", "lib", "bin"])), "binary");
    assert_eq!(get_artifact_kind(&artifact_of(&["lib", "example"])), "example");
}
