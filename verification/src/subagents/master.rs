//! The prompt of the master agent, which turns a request into a plan, the
//! prompts that prepare a plan and attach documentation to it, and the
//! prompts of the commands that reshape a plan.

use vstd::prelude::*;
use vstd::string::StringExecFns;

verus! {

/// What the master agent is told about testing.
pub open spec fn tests_policy(tests_mode: bool) -> Seq<char> {
    if tests_mode {
        "Tests mode is ON. Test requirements are enabled for planning.\nDo not ask the user testing-decision questions; apply defaults automatically.\nInclude test_writer branch for top-level tasks that change behavior/code.\nInclude a direct implementor test_runner branch so existing-test failures report back to implementor.\nEvery test_writer must include at least one test_runner subtask.\nIf tests are absent/unknown, add a dedicated testing-setup top-level task before dependent feature work."@
    } else {
        "Tests mode is OFF. Testing is globally disabled for this planning run.\nIn this mode, do not request, create, modify, or schedule any testing work.\nDo not ask testing-decision questions; treat testing as explicitly out of scope.\nDo not create or update test_writer/test_runner tasks."@
    }
}

/// What every plan has to say in the details of its tasks.
pub open spec fn details_rule() -> Seq<char> {
    "Every details field must be self-contained for isolated-context execution: name the files/modules, behavior expectations, constraints/non-goals and verification approach, and give an explicit isolated-context rationale stating why the assigned sub-agent can execute using only the task record and referenced artifacts."@
}

/// The prompt of the master agent: its role, the file it keeps the plan
/// in, the state of the workflow, the policy on testing and the rule on
/// task details, one under the other.
pub open spec fn master_prompt(
    tasks_file: Seq<char>,
    workflow_prompt: Seq<char>,
    tests_mode: bool,
) -> Seq<char> {
    "You are the master planning agent.\nKeep the task plan in this file: "@ + tasks_file
        + "\nWorkflow state:\n"@ + workflow_prompt + "\n"@ + tests_policy(tests_mode) + "\n"@
        + details_rule()
}

/// The prompt of the master agent.
pub fn build_master_prompt(tasks_file: &str, workflow_prompt: &str, tests_mode: bool) -> (text:
    String)
    ensures
        text@ == master_prompt(tasks_file@, workflow_prompt@, tests_mode),
{
    let mut text = String::from_str(
        "You are the master planning agent.\nKeep the task plan in this file: ",
    );
    text.append(tasks_file);
    text.append("\nWorkflow state:\n");
    text.append(workflow_prompt);
    text.append("\n");
    if tests_mode {
        text.append(
            "Tests mode is ON. Test requirements are enabled for planning.\nDo not ask the user testing-decision questions; apply defaults automatically.\nInclude test_writer branch for top-level tasks that change behavior/code.\nInclude a direct implementor test_runner branch so existing-test failures report back to implementor.\nEvery test_writer must include at least one test_runner subtask.\nIf tests are absent/unknown, add a dedicated testing-setup top-level task before dependent feature work.",
        );
    } else {
        text.append(
            "Tests mode is OFF. Testing is globally disabled for this planning run.\nIn this mode, do not request, create, modify, or schedule any testing work.\nDo not ask testing-decision questions; treat testing as explicitly out of scope.\nDo not create or update test_writer/test_runner tasks.",
        );
    }
    text.append("\n");
    text.append(
        "Every details field must be self-contained for isolated-context execution: name the files/modules, behavior expectations, constraints/non-goals and verification approach, and give an explicit isolated-context rationale stating why the assigned sub-agent can execute using only the task record and referenced artifacts.",
    );
    text
}

/// The prompt that has the plan drafted: the request of the user, the
/// file that holds the notes of the planner and the file that describes
/// the project, one under the other.
pub open spec fn planner_prompt(
    message: Seq<char>,
    planner_file: Seq<char>,
    project_info_file: Seq<char>,
) -> Seq<char> {
    "You are the planning agent.\nWrite the plan as markdown into this file: "@ + planner_file
        + "\nRead the description of the project from this file: "@ + project_info_file
        + "\nUser request:\n"@ + message
}

/// The prompt that has the plan drafted.
pub fn build_planner_prompt(message: &str, planner_file: &str, project_info_file: &str) -> (text:
    String)
    ensures
        text@ == planner_prompt(message@, planner_file@, project_info_file@),
{
    let mut text = String::from_str(
        "You are the planning agent.\nWrite the plan as markdown into this file: ",
    );
    text.append(planner_file);
    text.append("\nRead the description of the project from this file: ");
    text.append(project_info_file);
    text.append("\nUser request:\n");
    text.append(message);
    text
}

/// The prompt that has documentation attached to the tasks of a plan.
pub open spec fn attach_docs_prompt(tasks_file: Seq<char>) -> Seq<char> {
    "You attach documentation to planned tasks.\nRead the task plan from this file: "@ + tasks_file
        + "\nFor every task that needs outside documentation, fill its docs with entries of title, url and summary, and leave every other field as it is."@
}

/// The prompt that has documentation attached to the tasks of a plan.
pub fn build_attach_docs_prompt(tasks_file: &str) -> (text: String)
    ensures
        text@ == attach_docs_prompt(tasks_file@),
{
    let mut text = String::from_str(
        "You attach documentation to planned tasks.\nRead the task plan from this file: ",
    );
    text.append(tasks_file);
    text.append(
        "\nFor every task that needs outside documentation, fill its docs with entries of title, url and summary, and leave every other field as it is.",
    );
    text
}

/// The prompt of the command after which the auditor subtasks of each
/// implementor are split so that every concern is audited on its own.
pub fn split_audits_command_prompt() -> (text: String)
    ensures
        text@ == "Split audits: give each implementor one auditor subtask per concern (correctness, style, safety) instead of one combined audit; ensure details are self-contained and include files/modules, behavior expectations, constraints/non-goals, verification approach, and an explicit isolated-context rationale."@,
{
    String::from_str(
        "Split audits: give each implementor one auditor subtask per concern (correctness, style, safety) instead of one combined audit; ensure details are self-contained and include files/modules, behavior expectations, constraints/non-goals, verification approach, and an explicit isolated-context rationale.",
    )
}

/// The prompt of the command after which the auditor subtasks of each
/// implementor are merged into one.
pub fn merge_audits_command_prompt() -> (text: String)
    ensures
        text@ == "Merge audits: replace the auditor subtasks of each implementor by one combined auditor subtask that covers all of their concerns; keep details self-contained with files/modules, behavior expectations, constraints/non-goals, verification approach, and an explicit isolated-context rationale."@,
{
    String::from_str(
        "Merge audits: replace the auditor subtasks of each implementor by one combined auditor subtask that covers all of their concerns; keep details self-contained with files/modules, behavior expectations, constraints/non-goals, verification approach, and an explicit isolated-context rationale.",
    )
}

/// The prompt of the command after which the test-writer branches are split so
/// that every behaviour is tested on its own.
pub fn split_tests_command_prompt() -> (text: String)
    ensures
        text@ == "Split tests: give each top-level task one test_writer branch per behavior under test, each with its own test_runner subtask; ensure details are self-contained and include files/modules, behavior expectations, constraints/non-goals, verification approach, and an explicit isolated-context rationale."@,
{
    String::from_str(
        "Split tests: give each top-level task one test_writer branch per behavior under test, each with its own test_runner subtask; ensure details are self-contained and include files/modules, behavior expectations, constraints/non-goals, verification approach, and an explicit isolated-context rationale.",
    )
}

/// The prompt of the command after which the test-writer branches of each
/// top-level task are merged into one.
pub fn merge_tests_command_prompt() -> (text: String)
    ensures
        text@ == "Merge tests: replace the test_writer branches of each top-level task by one combined test_writer branch with a single test_runner subtask; keep details self-contained with files/modules, behavior expectations, constraints/non-goals, verification approach, and an explicit isolated-context rationale."@,
{
    String::from_str(
        "Merge tests: replace the test_writer branches of each top-level task by one combined test_writer branch with a single test_runner subtask; keep details self-contained with files/modules, behavior expectations, constraints/non-goals, verification approach, and an explicit isolated-context rationale.",
    )
}

} // verus!
