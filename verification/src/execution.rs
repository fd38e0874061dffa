//! Consolidated dev/tester execution: the decisions of the two-child
//! fan-out (which scope and prompt each child gets, how each child's end is
//! reported, how the two reports are combined) and the consolidated message.
use vstd::prelude::*;
use crate::text::{
    chars_equal, chars_of, decimal, has_substring, lemma_occurs_between, lemma_starts_with_prefix, lemma_substring_in_middle, starts_with, starts_with_text, i32_text, join, push_tenths, signed_decimal, string_views,
    tenths_text, u64_text,
};

verus! {

/// Result from a child execution (dev or tester).
#[derive(Debug, Clone)]
pub struct ChildResult {
    pub role: String,
    pub success: bool,
    pub output: String,
    pub error: Option<String>,
    /// How long the child ran, in tenths of a second (the report shows one
    /// decimal place).
    pub duration_tenths: u64,
}

/// Output from the consolidated execution.
#[derive(Debug)]
pub struct ExecutionOutput {
    pub dev_result: ChildResult,
    pub tester_result: ChildResult,
    pub all_succeeded: bool,
    pub summary: String,
}

/// The success or failure lines of a child's section.
pub open spec fn status_lines(r: ChildResult) -> Seq<char> {
    if r.success {
        "✓ Completed successfully\n"@
    } else {
        "✗ Failed\n"@ + match r.error {
            Some(e) => "  Error: "@ + e@ + "\n"@,
            None => Seq::empty(),
        }
    }
}

/// The output block of a child's section, when it produced output.
pub open spec fn output_lines(r: ChildResult) -> Seq<char> {
    if r.output@.len() > 0 {
        "  Output:\n  ```\n  "@ + r.output@ + "\n  ```\n"@
    } else {
        Seq::empty()
    }
}

/// A child's section of the consolidated message.
pub open spec fn child_section(title: Seq<char>, r: ChildResult) -> Seq<char> {
    "### "@ + title + "\n"@ + status_lines(r) + output_lines(r) + "  Duration: "@ + tenths_text(
        r.duration_tenths as nat,
    ) + "s\n\n"@
}

/// The overall status lines.
pub open spec fn overall_lines(all_succeeded: bool) -> Seq<char> {
    if all_succeeded {
        "### Overall Status\n✓ All tasks completed successfully.\n"@
    } else {
        "### Overall Status\n✗ One or more tasks failed. See details above.\n"@
    }
}

/// The summary block, when there is a summary.
pub open spec fn summary_lines(summary: Seq<char>) -> Seq<char> {
    if summary.len() > 0 {
        "\n### Summary\n"@ + summary + "\n"@
    } else {
        Seq::empty()
    }
}

/// The consolidated message of an execution.
pub open spec fn execution_message(o: ExecutionOutput) -> Seq<char> {
    "## Execution Results\n\n"@ + child_section("Developer"@, o.dev_result) + child_section(
        "Tester"@,
        o.tester_result,
    ) + overall_lines(o.all_succeeded) + summary_lines(o.summary@)
}

fn push_child_section(msg: &mut String, title: &str, r: &ChildResult)
    ensures
        final(msg)@ == old(msg)@ + child_section(title@, *r),
{
    msg.append("### ");
    msg.append(title);
    msg.append("\n");
    let ghost before_status = msg@;
    if r.success {
        msg.append("✓ Completed successfully\n");
    } else {
        msg.append("✗ Failed\n");
        match &r.error {
            Some(err) => {
                msg.append("  Error: ");
                msg.append(err.as_str());
                msg.append("\n");
            },
            None => {},
        }
    }
    assert(msg@ =~= before_status + status_lines(*r));
    let ghost before_output = msg@;
    if !r.output.as_str().is_empty() {
        msg.append("  Output:\n  ```\n  ");
        msg.append(r.output.as_str());
        msg.append("\n  ```\n");
    }
    assert(msg@ =~= before_output + output_lines(*r));
    msg.append("  Duration: ");
    push_tenths(msg, r.duration_tenths);
    msg.append("s\n\n");
}

impl ExecutionOutput {
    /// Format the execution output as a consolidated message for posting to
    /// the relay: one section per child (status, error, output, duration),
    /// the overall status, then the summary.
    pub fn as_message(&self) -> (msg: String)
        ensures
            msg@ == execution_message(*self),
    {
        let mut msg = String::from_str("## Execution Results\n\n");
        push_child_section(&mut msg, "Developer", &self.dev_result);
        push_child_section(&mut msg, "Tester", &self.tester_result);
        if self.all_succeeded {
            msg.append("### Overall Status\n✓ All tasks completed successfully.\n");
        } else {
            msg.append("### Overall Status\n✗ One or more tasks failed. See details above.\n");
        }
        let ghost before_summary = msg@;
        if !self.summary.as_str().is_empty() {
            msg.append("\n### Summary\n");
            msg.append(self.summary.as_str());
            msg.append("\n");
        }
        assert(msg@ =~= before_summary + summary_lines(self.summary@));
        msg
    }
}

/// The roles that failed, in the order dev, tester.
pub open spec fn failed_roles(dev_ok: bool, tester_ok: bool) -> Seq<Seq<char>> {
    if !dev_ok && !tester_ok {
        seq!["dev"@, "tester"@]
    } else if !dev_ok {
        seq!["dev"@]
    } else if !tester_ok {
        seq!["tester"@]
    } else {
        Seq::empty()
    }
}

/// The summary line of an execution.
pub open spec fn execution_summary(dev_ok: bool, tester_ok: bool) -> Seq<char> {
    if dev_ok && tester_ok {
        "Both developer and tester completed successfully."@
    } else {
        "Failed tasks: "@ + join(failed_roles(dev_ok, tester_ok), ", "@)
    }
}

/// Combines the two children's results into one consolidated output: it
/// succeeded only if both did, and its summary names the failed roles.
pub fn consolidate(dev_result: ChildResult, tester_result: ChildResult) -> (out: ExecutionOutput)
    ensures
        out.dev_result == dev_result,
        out.tester_result == tester_result,
        out.all_succeeded == (dev_result.success && tester_result.success),
        out.summary@ == execution_summary(dev_result.success, tester_result.success),
{
    let all_succeeded = dev_result.success && tester_result.success;
    let summary = if all_succeeded {
        String::from_str("Both developer and tester completed successfully.")
    } else {
        let mut failed: Vec<String> = Vec::new();
        if !dev_result.success {
            failed.push(String::from_str("dev"));
        }
        if !tester_result.success {
            failed.push(String::from_str("tester"));
        }
        assert(string_views(failed@) =~= failed_roles(dev_result.success, tester_result.success));
        let mut s = String::from_str("Failed tasks: ");
        let joined = crate::text::join_strings(&failed, ", ");
        s.append(joined.as_str());
        s
    };
    ExecutionOutput { dev_result, tester_result, all_succeeded, summary }
}

/// A consolidated execution succeeds exactly when both children succeed,
/// and when it does not, its summary lists every failed role and no other.
pub proof fn lemma_failures_reported(dev_ok: bool, tester_ok: bool)
    ensures
        !(dev_ok && tester_ok) ==> execution_summary(dev_ok, tester_ok) == "Failed tasks: "@
            + join(failed_roles(dev_ok, tester_ok), ", "@),
        failed_roles(dev_ok, tester_ok).contains("dev"@) <== !dev_ok,
        failed_roles(dev_ok, tester_ok).contains("tester"@) <== !tester_ok,
        failed_roles(dev_ok, tester_ok).len() == (if dev_ok { 0int } else { 1int }) + (if tester_ok {
            0int
        } else {
            1int
        }),
{
    if !dev_ok && !tester_ok {
        assert(seq!["dev"@, "tester"@][0] == "dev"@);
        assert(seq!["dev"@, "tester"@][1] == "tester"@);
    } else if !dev_ok {
        assert(seq!["dev"@][0] == "dev"@);
    } else if !tester_ok {
        assert(seq!["tester"@][0] == "tester"@);
    }
}

/// A child's section shows its output, in a fenced block, whenever the child
/// produced any, whether it succeeded or failed.
pub proof fn lemma_section_shows_output(title: Seq<char>, r: ChildResult)
    requires
        r.output@.len() > 0,
    ensures
        has_substring(child_section(title, r), "  Output:\n  ```\n  "@ + r.output@ + "\n  ```\n"@),
        starts_with(child_section(title, r), "### "@ + title + "\n"@),
{
    let block = "  Output:\n  ```\n  "@ + r.output@ + "\n  ```\n"@;
    let head = "### "@ + title + "\n"@ + status_lines(r);
    let tail = "  Duration: "@ + tenths_text(r.duration_tenths as nat) + "s\n\n"@;
    assert(child_section(title, r) =~= head + block + tail);
    lemma_occurs_between(head, block, tail);
    assert(child_section(title, r).subrange(0, ("### "@ + title + "\n"@).len() as int) =~= "### "@
        + title + "\n"@);
}

/// A child's section reports its status: a success line for a child that
/// succeeded; otherwise a failure line, followed by the error line when
/// there is an error. The section ends with the duration line.
pub proof fn lemma_section_reports_status(title: Seq<char>, r: ChildResult)
    ensures
        r.success ==> starts_with(
            child_section(title, r),
            "### "@ + title + "\n"@ + "✓ Completed successfully\n"@,
        ),
        !r.success ==> starts_with(child_section(title, r), "### "@ + title + "\n"@ + "✗ Failed\n"@),
        !r.success && r.error is Some ==> starts_with(
            child_section(title, r),
            "### "@ + title + "\n"@ + "✗ Failed\n"@ + "  Error: "@ + r.error->0@ + "\n"@,
        ),
        has_substring(
            child_section(title, r),
            "  Duration: "@ + tenths_text(r.duration_tenths as nat) + "s\n\n"@,
        ),
{
    let head = "### "@ + title + "\n"@;
    let tail = "  Duration: "@ + tenths_text(r.duration_tenths as nat) + "s\n\n"@;
    let section = child_section(title, r);
    assert(section =~= head + status_lines(r) + output_lines(r) + tail);
    lemma_occurs_between(head + status_lines(r) + output_lines(r), tail, Seq::empty());
    assert(head + status_lines(r) + output_lines(r) + tail + Seq::<char>::empty() =~= section);
    if r.success {
        let p = head + "✓ Completed successfully\n"@;
        assert(section =~= p + (output_lines(r) + tail));
        lemma_starts_with_prefix(p, output_lines(r) + tail);
    } else {
        let p = head + "✗ Failed\n"@;
        let err = match r.error {
            Some(e) => "  Error: "@ + e@ + "\n"@,
            None => Seq::empty(),
        };
        assert(section =~= p + (err + output_lines(r) + tail));
        lemma_starts_with_prefix(p, err + output_lines(r) + tail);
        if r.error is Some {
            assert(section =~= (p + err) + (output_lines(r) + tail));
            lemma_starts_with_prefix(p + err, output_lines(r) + tail);
            assert(p + err =~= head + "✗ Failed\n"@ + "  Error: "@ + r.error->0@ + "\n"@);
        }
    }
}

/// The consolidated message opens with the developer's section, and it shows
/// the output of each child that produced output, whatever the child's
/// success.
pub proof fn lemma_message_shows_outputs(o: ExecutionOutput)
    ensures
        starts_with(execution_message(o), "## Execution Results\n\n"@ + "### "@ + "Developer"@ + "\n"@),
        o.dev_result.output@.len() > 0 ==> has_substring(
            execution_message(o),
            "  Output:\n  ```\n  "@ + o.dev_result.output@ + "\n  ```\n"@,
        ),
        o.tester_result.output@.len() > 0 ==> has_substring(
            execution_message(o),
            "  Output:\n  ```\n  "@ + o.tester_result.output@ + "\n  ```\n"@,
        ),
{
    let msg = execution_message(o);
    let opening = "## Execution Results\n\n"@;
    let dev = child_section("Developer"@, o.dev_result);
    let tester = child_section("Tester"@, o.tester_result);
    let rest = overall_lines(o.all_succeeded) + summary_lines(o.summary@);
    assert(msg =~= opening + dev + (tester + rest));
    assert(msg =~= (opening + dev) + tester + rest);
    let dev_title = "### "@ + "Developer"@ + "\n"@;
    let dev_body = status_lines(o.dev_result) + output_lines(o.dev_result) + "  Duration: "@
        + tenths_text(o.dev_result.duration_tenths as nat) + "s\n\n"@;
    assert(dev =~= dev_title + dev_body);
    assert(msg =~= (opening + dev_title) + (dev_body + (tester + rest)));
    lemma_starts_with_prefix(opening + dev_title, dev_body + (tester + rest));
    assert(opening + dev_title =~= opening + "### "@ + "Developer"@ + "\n"@);
    if o.dev_result.output@.len() > 0 {
        lemma_section_shows_output("Developer"@, o.dev_result);
        lemma_substring_in_middle(
            opening,
            dev,
            tester + rest,
            "  Output:\n  ```\n  "@ + o.dev_result.output@ + "\n  ```\n"@,
        );
    }
    if o.tester_result.output@.len() > 0 {
        lemma_section_shows_output("Tester"@, o.tester_result);
        lemma_substring_in_middle(
            opening + dev,
            tester,
            rest,
            "  Output:\n  ```\n  "@ + o.tester_result.output@ + "\n  ```\n"@,
        );
    }
}

/// An exited child reports its standard output; its standard error is
/// reported only when the standard output is empty. A child that did not
/// exit on its own reports no output.
pub proof fn lemma_reported_output(o: ChildOutcome)
    ensures
        o matches ChildOutcome::Exited { stdout, stderr, .. } ==> (stdout@.len() > 0
            ==> outcome_output(o) == stdout@) && (stdout@.len() == 0 ==> outcome_output(o)
            == stderr@),
        !(o is Exited) ==> outcome_output(o).len() == 0,
{
}

/// How each ending is reported: a child that never started failed with the
/// "no time remaining" error; a child that exited failed exactly when it
/// reported failure, and its error is its standard error when that is
/// non-empty, else its exit code; a child that could not be waited for or
/// timed out failed.
pub proof fn lemma_reported_error(o: ChildOutcome)
    ensures
        o is NoTimeLeft ==> !outcome_success(o) && outcome_error(o) == Some(
            "Timeout: no time remaining for execution"@,
        ),
        o matches ChildOutcome::Exited { success, stderr, .. } ==> (outcome_success(o) == success
            && (success ==> outcome_error(o) is None) && (!success && stderr@.len() > 0
            ==> outcome_error(o) == Some(stderr@))),
        o matches ChildOutcome::WaitFailed { error } ==> !outcome_success(o) && outcome_error(o)
            == Some("failed to wait for run-task: "@ + error@),
        o is TimedOut ==> !outcome_success(o) && outcome_error(o) is Some,
{
}

/// The report of a child whose run could not even be attempted: failed,
/// no output, the given error, no time spent.
pub fn failed_launch_result(role: &str, error: String) -> (r: ChildResult)
    ensures
        r.role@ == role@,
        !r.success,
        r.output@ == Seq::<char>::empty(),
        crate::text::opt_view(r.error) == Some(error@),
        r.duration_tenths == 0,
{
    ChildResult {
        role: String::from_str(role),
        success: false,
        output: String::new(),
        error: Some(error),
        duration_tenths: 0,
    }
}

/// The whole seconds a child may run for, from the time left before the
/// shared deadline (whole seconds and the nanoseconds beyond them): `None`
/// when no time is left, in which case the child is not started.
pub fn launch_budget(remaining_secs: u64, remaining_subsec_nanos: u32) -> (r: Option<u64>)
    ensures
        r is None <==> remaining_secs == 0 && remaining_subsec_nanos == 0,
        r matches Some(b) ==> b == remaining_secs,
{
    if remaining_secs == 0 && remaining_subsec_nanos == 0 {
        None
    } else {
        Some(remaining_secs)
    }
}

/// How a child's run ended.
pub enum ChildOutcome {
    /// The shared deadline had already passed; the child was not started.
    NoTimeLeft,
    /// The child exited on its own.
    Exited { success: bool, stdout: String, stderr: String, exit_code: Option<i32> },
    /// Waiting for the child failed.
    WaitFailed { error: String },
    /// The child outlived its time budget (in tenths of a second) and was
    /// killed.
    TimedOut { budget_tenths: u64 },
}

/// The error text of a child that ended with the given outcome, if any.
pub open spec fn outcome_error(o: ChildOutcome) -> Option<Seq<char>> {
    match o {
        ChildOutcome::NoTimeLeft => Some("Timeout: no time remaining for execution"@),
        ChildOutcome::Exited { success, stdout, stderr, exit_code } => if success {
            None
        } else if stderr@.len() > 0 {
            Some(stderr@)
        } else {
            Some(
                "run-task exited with code "@ + signed_decimal(
                    match exit_code {
                        Some(c) => c as int,
                        None => -1,
                    },
                ),
            )
        },
        ChildOutcome::WaitFailed { error } => Some("failed to wait for run-task: "@ + error@),
        ChildOutcome::TimedOut { budget_tenths } => Some(
            "run-task timed out after "@ + tenths_text(budget_tenths as nat) + "s"@,
        ),
    }
}

/// The output reported for a child that ended with the given outcome: its
/// standard output, or its standard error when the former is empty.
pub open spec fn outcome_output(o: ChildOutcome) -> Seq<char> {
    match o {
        ChildOutcome::Exited { stdout, stderr, .. } => if stdout@.len() > 0 {
            stdout@
        } else {
            stderr@
        },
        _ => Seq::empty(),
    }
}

/// Whether a child that ended with the given outcome succeeded.
pub open spec fn outcome_success(o: ChildOutcome) -> bool {
    match o {
        ChildOutcome::Exited { success, .. } => success,
        _ => false,
    }
}

/// Reports how a child's run ended. A child that never started spent no
/// time; otherwise the measured duration is kept.
pub fn child_result(role: &str, outcome: ChildOutcome, duration_tenths: u64) -> (r: ChildResult)
    ensures
        r.role@ == role@,
        r.success == outcome_success(outcome),
        r.output@ == outcome_output(outcome),
        outcome matches ChildOutcome::Exited { stdout, stderr, .. } ==> r.output@ == (if stdout@.len()
            > 0 {
            stdout@
        } else {
            stderr@
        }),
        crate::text::opt_view(r.error) == outcome_error(outcome),
        r.duration_tenths == (if outcome is NoTimeLeft {
            0
        } else {
            duration_tenths
        }),
{
    let ghost o = outcome;
    match outcome {
        ChildOutcome::NoTimeLeft => ChildResult {
            role: String::from_str(role),
            success: false,
            output: String::new(),
            error: Some(String::from_str("Timeout: no time remaining for execution")),
            duration_tenths: 0,
        },
        ChildOutcome::Exited { success, stdout, stderr, exit_code } => {
            let error = if success {
                None
            } else if !stderr.as_str().is_empty() {
                Some(stderr.clone())
            } else {
                let code: i32 = match exit_code {
                    Some(c) => c,
                    None => -1,
                };
                let mut m = String::from_str("run-task exited with code ");
                let digits = i32_text(code);
                m.append(digits.as_str());
                Some(m)
            };
            let output = if !stdout.as_str().is_empty() {
                stdout
            } else {
                stderr
            };
            ChildResult { role: String::from_str(role), success, output, error, duration_tenths }
        },
        ChildOutcome::WaitFailed { error } => {
            let mut m = String::from_str("failed to wait for run-task: ");
            m.append(error.as_str());
            ChildResult {
                role: String::from_str(role),
                success: false,
                output: String::new(),
                error: Some(m),
                duration_tenths,
            }
        },
        ChildOutcome::TimedOut { budget_tenths } => {
            let mut m = String::from_str("run-task timed out after ");
            push_tenths(&mut m, budget_tenths);
            m.append("s");
            ChildResult {
                role: String::from_str(role),
                success: false,
                output: String::new(),
                error: Some(m),
                duration_tenths,
            }
        },
    }
}

/// The tool scope a child runs with: the developer gets full tools, every
/// other role read-only.
pub open spec fn role_tool_scope(role: Seq<char>) -> Seq<char> {
    if role == "dev"@ {
        "full"@
    } else {
        "read-only"@
    }
}

/// The tool scope a child of the given role runs with.
pub fn tool_scope_for_role(role: &str) -> (r: &'static str)
    ensures
        r@ == role_tool_scope(role@),
{
    if chars_equal(&chars_of(role), "dev") {
        "full"
    } else {
        "read-only"
    }
}

/// The arguments of `buzz-acp` that run one task: the task prompt, the
/// persona's system prompt, the tool scope and the remaining whole seconds.
pub open spec fn run_task_argv(
    task_prompt: Seq<char>,
    system_prompt: Seq<char>,
    tool_scope: Seq<char>,
    timeout_secs: nat,
) -> Seq<Seq<char>> {
    seq![
        "run-task"@,
        "--prompt"@,
        task_prompt,
        "--system-prompt"@,
        system_prompt,
        "--tool-scope"@,
        tool_scope,
        "--timeout-secs"@,
        decimal(timeout_secs),
    ]
}

/// Builds the `buzz-acp` arguments that run one task.
pub fn run_task_args(task_prompt: &str, system_prompt: &str, tool_scope: &str, timeout_secs: u64) -> (r:
    Vec<String>)
    ensures
        string_views(r@) == run_task_argv(
            task_prompt@,
            system_prompt@,
            tool_scope@,
            timeout_secs as nat,
        ),
{
    let mut v: Vec<String> = Vec::new();
    v.push(String::from_str("run-task"));
    v.push(String::from_str("--prompt"));
    v.push(String::from_str(task_prompt));
    v.push(String::from_str("--system-prompt"));
    v.push(String::from_str(system_prompt));
    v.push(String::from_str("--tool-scope"));
    v.push(String::from_str(tool_scope));
    v.push(String::from_str("--timeout-secs"));
    v.push(u64_text(timeout_secs));
    assert(string_views(v@) =~= run_task_argv(
        task_prompt@,
        system_prompt@,
        tool_scope@,
        timeout_secs as nat,
    ));
    v
}

/// The settings that hold the Supervisor's ISM credentials: every
/// environment variable whose name begins with `BUZZ_ISM_`.
pub open spec fn is_ism_setting(name: Seq<char>) -> bool {
    starts_with(name, "BUZZ_ISM_"@)
}

/// Whether a child inherits the parent's environment variable `name`. ISM
/// credentials live only with the Supervisor: no variable whose name begins
/// with `BUZZ_ISM_` is passed on; every other one is.
pub fn inherits_setting(name: &str) -> (r: bool)
    ensures
        r == !is_ism_setting(name@),
{
    let c = chars_of(name);
    !starts_with_text(&c, "BUZZ_ISM_")
}

/// The message of a persona file that could not be read.
pub fn persona_read_error(path: &str, reason: &str) -> (r: String)
    ensures
        r@ == "failed to read persona file "@ + path@ + ": "@ + reason@,
{
    let mut m = String::from_str("failed to read persona file ");
    m.append(path);
    m.append(": ");
    m.append(reason);
    m
}

/// The message of a child that could not be spawned.
pub fn spawn_error(reason: &str) -> (r: String)
    ensures
        r@ == "failed to spawn buzz-acp run-task: "@ + reason@,
{
    let mut m = String::from_str("failed to spawn buzz-acp run-task: ");
    m.append(reason);
    m
}

/// The setting that overrides a role's persona file, and the default file.
pub open spec fn persona_source(role: Seq<char>) -> (Seq<char>, Seq<char>) {
    if role == "dev"@ {
        ("BUZZ_DEV_PERSONA_PATH"@, "examples/meadow-core/agents/dev.persona.md"@)
    } else {
        ("BUZZ_TESTER_PERSONA_PATH"@, "examples/meadow-core/agents/tester.persona.md"@)
    }
}

/// The setting that overrides the persona file of a role, and the default
/// path relative to the repository root.
pub fn persona_setting(role: &str) -> (r: (&'static str, &'static str))
    ensures
        (r.0@, r.1@) == persona_source(role@),
{
    if chars_equal(&chars_of(role), "dev") {
        ("BUZZ_DEV_PERSONA_PATH", "examples/meadow-core/agents/dev.persona.md")
    } else {
        ("BUZZ_TESTER_PERSONA_PATH", "examples/meadow-core/agents/tester.persona.md")
    }
}

/// The persona file of a role: the overriding setting's value when it has
/// one, the default path otherwise.
pub fn persona_path_for_role(role: &str, setting_value: Option<String>) -> (r: String)
    ensures
        r@ == match setting_value {
            Some(v) => v@,
            None => persona_source(role@).1,
        },
{
    match setting_value {
        Some(v) => v,
        None => {
            let (_, default_path) = persona_setting(role);
            String::from_str(default_path)
        },
    }
}

/// The command that fetches the decision thread for a child.
pub open spec fn fetch_command(channel_id: Seq<char>, thread_id: Seq<char>) -> Seq<char> {
    "buzz --format compact messages thread --channel "@ + channel_id + " --event "@ + thread_id
}

/// The task prompt handed to a child: the developer implements the
/// confirmed decision, every other role verifies it.
pub open spec fn task_prompt(role: Seq<char>, channel_id: Seq<char>, thread_id: Seq<char>) -> Seq<
    char,
> {
    let fetch = fetch_command(channel_id, thread_id);
    if role == "dev"@ {
        "A decision was confirmed in this Buzz thread. Run `"@ + fetch
            + "` to read the \
             full discussion and the confirmed scope/acceptance criteria. Implement the \
             confirmed decision: read the existing codebase, write the code, commit, and \
             open a pull request. Do not merge or deploy. Post progress updates to the \
             thread as you go (channel "@
            + channel_id + ", thread "@ + thread_id + ")."@
    } else {
        "A decision was confirmed and implemented in this Buzz thread. Run `"@ + fetch
            + "` \
             to read the full discussion, the confirmed acceptance criteria, and the \
             developer's progress updates (including any PR link). Verify the implementation: \
             run the real test suite and check each acceptance criterion against actual \
             output. Do not modify any code. Post your pass/fail report to the thread \
             (channel "@
            + channel_id + ", thread "@ + thread_id + ")."@
    }
}

/// Builds the task prompt handed to a child via `buzz-acp run-task --prompt`.
///
/// The persona (system prompt) tells the agent *how* to behave; this text
/// tells it *what* to do right now: read the confirmed decision thread via
/// the `buzz` CLI, then implement (developer) or verify (tester).
pub fn task_prompt_for_role(role: &str, channel_id: &str, thread_id: &str) -> (r: String)
    ensures
        r@ == task_prompt(role@, channel_id@, thread_id@),
{
    let mut fetch = String::from_str("buzz --format compact messages thread --channel ");
    fetch.append(channel_id);
    fetch.append(" --event ");
    fetch.append(thread_id);
    let mut p;
    if chars_equal(&chars_of(role), "dev") {
        p = String::from_str("A decision was confirmed in this Buzz thread. Run `");
        p.append(fetch.as_str());
        p.append(
            "` to read the \
             full discussion and the confirmed scope/acceptance criteria. Implement the \
             confirmed decision: read the existing codebase, write the code, commit, and \
             open a pull request. Do not merge or deploy. Post progress updates to the \
             thread as you go (channel ",
        );
    } else {
        p = String::from_str("A decision was confirmed and implemented in this Buzz thread. Run `");
        p.append(fetch.as_str());
        p.append(
            "` \
             to read the full discussion, the confirmed acceptance criteria, and the \
             developer's progress updates (including any PR link). Verify the implementation: \
             run the real test suite and check each acceptance criterion against actual \
             output. Do not modify any code. Post your pass/fail report to the thread \
             (channel ",
        );
    }
    p.append(channel_id);
    p.append(", thread ");
    p.append(thread_id);
    p.append(").");
    p
}

} // verus!
