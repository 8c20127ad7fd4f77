use lineage_core::shell::sidecar::{agentos_candidates, pick_sidecar, require_output, resolve_output, ExitCodePolicy};

const AGENTOS_EXE: &str = "agentos";

#[test]
fn debug_prefers_workspace_debug_sidecar_over_bundled_copy() {
    let root = "workspace";
    let resources = "resources";

    assert_eq!(
        agentos_candidates(Some(root), Some(resources), true, AGENTOS_EXE),
        vec!["workspace/target/debug/agentos".to_string()]
    );
}

#[test]
fn release_prefers_bundled_sidecar_then_workspace_release() {
    let root = "workspace";
    let resources = "resources";

    assert_eq!(
        agentos_candidates(Some(root), Some(resources), false, AGENTOS_EXE),
        vec![
            "resources/agentos".to_string(),
            "workspace/target/release/agentos".to_string(),
        ]
    );
}

#[test]
fn without_a_workspace_only_the_bundled_copy_is_tried() {
    assert_eq!(
        agentos_candidates(None, Some("resources/"), true, AGENTOS_EXE),
        vec!["resources/agentos".to_string()]
    );
    assert!(agentos_candidates(None, None, false, AGENTOS_EXE).is_empty());
}

#[test]
fn reported_outcome_accepts_exit_two_with_json() {
    let stdout = r#"{"status":"failed"}"#.to_string();

    assert_eq!(
        resolve_output(Some(2), stdout.clone(), "", ExitCodePolicy::ReportedOutcome),
        Ok(stdout)
    );
}

#[test]
fn reported_outcome_rejects_exit_two_without_stdout() {
    let error = resolve_output(
        Some(2),
        String::new(),
        "error: unrecognized subcommand 'apply'",
        ExitCodePolicy::ReportedOutcome,
    )
    .expect_err("a clap parse failure must not be treated as a reported outcome");

    assert_eq!(error, "error: unrecognized subcommand 'apply'");
}

#[test]
fn reported_outcome_rejects_exit_two_with_non_json_stdout() {
    let error = resolve_output(
        Some(2),
        "Usage: agentos apply".to_string(),
        "command line could not be parsed",
        ExitCodePolicy::ReportedOutcome,
    )
    .expect_err("only a JSON outcome may use the domain exit code");

    assert_eq!(error, "command line could not be parsed");
}

#[test]
fn strict_commands_reject_exit_two_even_with_stdout() {
    let error = resolve_output(
        Some(2),
        r#"{"status":"failed"}"#.to_string(),
        "domain command failed",
        ExitCodePolicy::SuccessOnly,
    )
    .expect_err("strict commands must require exit code zero");

    assert_eq!(error, "domain command failed");
}

#[test]
fn a_silent_failure_names_the_exit() {
    assert_eq!(
        resolve_output(Some(0), "out".into(), "ignored", ExitCodePolicy::SuccessOnly),
        Ok("out".to_string())
    );
    assert_eq!(
        resolve_output(Some(3), String::new(), "  \n", ExitCodePolicy::SuccessOnly),
        Err("agentos の実行に失敗しました (終了コード: 3)".to_string())
    );
    assert_eq!(
        resolve_output(Some(-1), String::new(), "", ExitCodePolicy::SuccessOnly),
        Err("agentos の実行に失敗しました (終了コード: -1)".to_string())
    );
    assert_eq!(
        resolve_output(None, String::new(), "", ExitCodePolicy::ReportedOutcome),
        Err("agentos の実行に失敗しました (シグナルにより終了)".to_string())
    );
    assert_eq!(
        resolve_output(Some(1), String::new(), "  boom \n", ExitCodePolicy::SuccessOnly),
        Err("boom".to_string())
    );
}

#[test]
fn blank_output_is_not_json() {
    assert!(require_output(" \n").is_err());
    assert!(require_output("{}").is_ok());
}

#[test]
fn the_first_candidate_found_is_run() {
    let candidates = vec![
        ("resources/agentos".to_string(), false),
        ("workspace/target/release/agentos".to_string(), true),
    ];
    assert_eq!(pick_sidecar(&candidates, "agentos"), Ok("workspace/target/release/agentos".to_string()));
    let none = vec![("resources/agentos".to_string(), false)];
    assert_eq!(
        pick_sidecar(&none, "agentos"),
        Err("agentos が見つかりません。`cargo build -p agentos` を実行してください".to_string())
    );
    assert!(pick_sidecar(&Vec::new(), "agentos.exe").is_err());
}
