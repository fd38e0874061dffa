use buzz::execution::{
    child_result, consolidate, inherits_setting, launch_budget, failed_launch_result, persona_path_for_role, persona_read_error,
    persona_setting, run_task_args, spawn_error, task_prompt_for_role, tool_scope_for_role,
    ChildOutcome, ChildResult, ExecutionOutput,
};

#[test]
fn test_execution_output_formatting() {
    let exec = ExecutionOutput {
        dev_result: ChildResult {
            role: "dev".to_string(),
            success: true,
            output: "Implemented feature X".to_string(),
            error: None,
            duration_tenths: 55,
        },
        tester_result: ChildResult {
            role: "tester".to_string(),
            success: true,
            output: "All tests pass".to_string(),
            error: None,
            duration_tenths: 32,
        },
        all_succeeded: true,
        summary: "Both tasks completed.".to_string(),
    };

    let msg = exec.as_message();
    assert!(msg.contains("Developer"));
    assert!(msg.contains("Tester"));
    assert!(msg.contains("✓ Completed successfully"));
    assert!(msg.contains("Overall Status"));
    assert!(msg.contains("5.5s"));
    assert!(msg.contains("3.2s"));
}

#[test]
fn test_execution_output_with_failures() {
    let exec = ExecutionOutput {
        dev_result: ChildResult {
            role: "dev".to_string(),
            success: false,
            output: String::new(),
            error: Some("Compilation failed".to_string()),
            duration_tenths: 20,
        },
        tester_result: ChildResult {
            role: "tester".to_string(),
            success: true,
            output: "Verified".to_string(),
            error: None,
            duration_tenths: 15,
        },
        all_succeeded: false,
        summary: "Failed tasks: dev".to_string(),
    };

    let msg = exec.as_message();
    assert!(msg.contains("✗ Failed"));
    assert!(msg.contains("Compilation failed"));
    assert!(msg.contains("Failed tasks: dev"));
}

#[test]
fn execution_message_exact() {
    let exec = ExecutionOutput {
        dev_result: ChildResult {
            role: "dev".to_string(),
            success: false,
            output: String::new(),
            error: Some("boom".to_string()),
            duration_tenths: 0,
        },
        tester_result: ChildResult {
            role: "tester".to_string(),
            success: true,
            output: "ok".to_string(),
            error: None,
            duration_tenths: 1234,
        },
        all_succeeded: false,
        summary: String::new(),
    };
    assert_eq!(
        exec.as_message(),
        "## Execution Results\n\n\
### Developer\n✗ Failed\n  Error: boom\n  Duration: 0.0s\n\n\
### Tester\n✓ Completed successfully\n  Output:\n  ```\n  ok\n  ```\n  Duration: 123.4s\n\n\
### Overall Status\n✗ One or more tasks failed. See details above.\n"
    );
}

fn result(role: &str, success: bool) -> ChildResult {
    ChildResult {
        role: role.to_string(),
        success,
        output: String::new(),
        error: None,
        duration_tenths: 7,
    }
}

#[test]
fn consolidation_summaries() {
    let out = consolidate(result("dev", true), result("tester", true));
    assert!(out.all_succeeded);
    assert_eq!(out.summary, "Both developer and tester completed successfully.");
    let out = consolidate(result("dev", false), result("tester", true));
    assert!(!out.all_succeeded);
    assert_eq!(out.summary, "Failed tasks: dev");
    let out = consolidate(result("dev", true), result("tester", false));
    assert_eq!(out.summary, "Failed tasks: tester");
    let out = consolidate(result("dev", false), result("tester", false));
    assert_eq!(out.summary, "Failed tasks: dev, tester");
    assert_eq!(out.dev_result.role, "dev");
    assert_eq!(out.tester_result.duration_tenths, 7);
}

#[test]
fn child_outcomes_are_reported() {
    let r = child_result("dev", ChildOutcome::NoTimeLeft, 99);
    assert!(!r.success);
    assert_eq!(r.error.as_deref(), Some("Timeout: no time remaining for execution"));
    assert_eq!(r.duration_tenths, 0);

    let r = child_result(
        "tester",
        ChildOutcome::Exited {
            success: true,
            stdout: String::new(),
            stderr: "warn".to_string(),
            exit_code: Some(0),
        },
        12,
    );
    assert!(r.success);
    assert_eq!(r.output, "warn");
    assert_eq!(r.error, None);
    assert_eq!(r.duration_tenths, 12);

    let r = child_result(
        "dev",
        ChildOutcome::Exited {
            success: false,
            stdout: "partial".to_string(),
            stderr: String::new(),
            exit_code: Some(2),
        },
        5,
    );
    assert_eq!(r.output, "partial");
    assert_eq!(r.error.as_deref(), Some("run-task exited with code 2"));

    let r = child_result(
        "dev",
        ChildOutcome::Exited {
            success: false,
            stdout: String::new(),
            stderr: String::new(),
            exit_code: None,
        },
        5,
    );
    assert_eq!(r.error.as_deref(), Some("run-task exited with code -1"));

    let r = child_result(
        "dev",
        ChildOutcome::Exited {
            success: false,
            stdout: String::new(),
            stderr: "fatal".to_string(),
            exit_code: Some(-2147483648),
        },
        5,
    );
    assert_eq!(r.error.as_deref(), Some("fatal"));

    let r = child_result("dev", ChildOutcome::WaitFailed { error: "io".to_string() }, 3);
    assert_eq!(r.error.as_deref(), Some("failed to wait for run-task: io"));

    let r = child_result("dev", ChildOutcome::TimedOut { budget_tenths: 6005 }, 6010);
    assert_eq!(r.error.as_deref(), Some("run-task timed out after 600.5s"));
    assert_eq!(r.duration_tenths, 6010);
    assert_eq!(r.role, "dev");
}

#[test]
fn launch_failures() {
    let r = failed_launch_result("tester", "no persona".to_string());
    assert!(!r.success);
    assert_eq!(r.role, "tester");
    assert_eq!(r.output, "");
    assert_eq!(r.error.as_deref(), Some("no persona"));
    assert_eq!(r.duration_tenths, 0);
    assert_eq!(
        persona_read_error("p.md", "not found"),
        "failed to read persona file p.md: not found"
    );
    assert_eq!(spawn_error("denied"), "failed to spawn buzz-acp run-task: denied");
}

#[test]
fn roles_scopes_and_personas() {
    assert_eq!(tool_scope_for_role("dev"), "full");
    assert_eq!(tool_scope_for_role("tester"), "read-only");
    assert_eq!(tool_scope_for_role("Dev"), "read-only");
    assert_eq!(
        persona_setting("dev"),
        ("BUZZ_DEV_PERSONA_PATH", "examples/meadow-core/agents/dev.persona.md")
    );
    assert_eq!(
        persona_setting("tester"),
        ("BUZZ_TESTER_PERSONA_PATH", "examples/meadow-core/agents/tester.persona.md")
    );
    assert_eq!(persona_path_for_role("dev", None), "examples/meadow-core/agents/dev.persona.md");
    assert_eq!(persona_path_for_role("tester", Some("/etc/t.md".to_string())), "/etc/t.md");
}

#[test]
fn run_task_arguments() {
    let args = run_task_args("do it", "be nice", "read-only", 3600);
    assert_eq!(
        args,
        vec![
            "run-task",
            "--prompt",
            "do it",
            "--system-prompt",
            "be nice",
            "--tool-scope",
            "read-only",
            "--timeout-secs",
            "3600"
        ]
    );
    assert_eq!(run_task_args("", "", "full", 0)[8], "0");
    assert_eq!(run_task_args("", "", "full", u64::MAX)[8], "18446744073709551615");
}

#[test]
fn task_prompts() {
    let dev = task_prompt_for_role("dev", "C", "T");
    assert_eq!(
        dev,
        "A decision was confirmed in this Buzz thread. Run `buzz --format compact messages thread --channel C --event T` to read the full discussion and the confirmed scope/acceptance criteria. Implement the confirmed decision: read the existing codebase, write the code, commit, and open a pull request. Do not merge or deploy. Post progress updates to the thread as you go (channel C, thread T)."
    );
    let tester = task_prompt_for_role("tester", "C", "T");
    assert_eq!(
        tester,
        "A decision was confirmed and implemented in this Buzz thread. Run `buzz --format compact messages thread --channel C --event T` to read the full discussion, the confirmed acceptance criteria, and the developer's progress updates (including any PR link). Verify the implementation: run the real test suite and check each acceptance criterion against actual output. Do not modify any code. Post your pass/fail report to the thread (channel C, thread T)."
    );
}

#[test]
fn ism_credentials_are_not_inherited() {
    assert!(!inherits_setting("BUZZ_ISM_BASE_URL"));
    assert!(!inherits_setting("BUZZ_ISM_SERVICE_PASSWORD"));
    assert!(!inherits_setting("BUZZ_ISM_"));
    assert!(inherits_setting("BUZZ_PRIVATE_KEY"));
    assert!(inherits_setting("BUZZ_ISM"));
    assert!(inherits_setting("buzz_ism_base_url"));
    assert!(inherits_setting("PATH"));
}

#[test]
fn launch_budget_from_time_left() {
    assert_eq!(launch_budget(0, 0), None);
    assert_eq!(launch_budget(0, 1), Some(0));
    assert_eq!(launch_budget(12, 0), Some(12));
    assert_eq!(launch_budget(3, 999_999_999), Some(3));
}
