//! Executing a PRD (Product Requirements Document) of coding tasks through
//! the `ralphy` runner: gates, configuration and task validation, and result
//! mapping are verified; writing the task file and running the command belong
//! to the embedding application.

use vstd::prelude::*;

verus! {

use std::sync::Arc;
use crate::ToolResult;
use crate::security::SecurityPolicy;
use crate::text::{dec_spec, i64_to_string, push_str, trim_spec, u64_to_string};

pub struct RalphyConfig {
    pub enabled: bool,
    pub working_dir: Option<String>,
    pub timeout_secs: u64,
    pub command: String,
}

/// One task of a PRD, as handed in by the agent loop.
pub struct RalphyTask {
    pub title: Option<String>,
    pub description: Option<String>,
    pub parallel_group: Option<i64>,
}

pub struct RalphyTool {
    pub security: Arc<SecurityPolicy>,
    pub config: RalphyConfig,
    pub description: String,
}

pub open spec fn ralphy_description() -> Seq<char> {
    "Execute a PRD (Product Requirements Document) with ralphy to run multi-step coding tasks via Codex.\n\nWORKFLOW: First use the MCP \"codex\" tool to have Codex write an optimal task list, then call this tool to execute it.\n\nEach task should be:\n- Atomic and testable (one clear action per task)\n- Descriptive title (the agent sees this as its primary instruction)\n- Optional description for additional context\n\nUse parallel_group to run independent tasks concurrently (same group number = run together).\nTasks without parallel_group run sequentially.\n\nIn sequential mode, description enriches the agent prompt.\nIn parallel mode, only the title is sent to the agent — put critical info in the title."@
}

pub open spec fn no_working_dir_msg() -> Seq<char> {
    "Ralphy working_dir is not configured. Set [ralphy] working_dir in config.toml."@
}

pub open spec fn empty_tasks_msg() -> Seq<char> {
    "Tasks array is empty. Provide at least one task."@
}

pub open spec fn missing_title_msg(index: int) -> Seq<char> {
    "Task at index "@ + dec_spec(index) + " is missing a non-empty 'title' field."@
}

/// A task is well-formed when its title is present and non-blank.
pub open spec fn task_title_ok(task: RalphyTask) -> bool {
    task.title matches Some(t) && trim_spec(t@).len() > 0
}

pub open spec fn ralphy_denial(result: ToolResult, msg: Seq<char>) -> bool {
    &&& !result.success
    &&& result.output@.len() == 0
    &&& result.error matches Some(e) && e@ == msg
}

impl RalphyTool {
    pub fn new(security: Arc<SecurityPolicy>, config: RalphyConfig) -> (r: RalphyTool)
        ensures
            r.security == security,
            r.config == config,
            r.description@ == ralphy_description(),
    {
        let description =
            "Execute a PRD (Product Requirements Document) with ralphy to run multi-step coding tasks via Codex.\n\nWORKFLOW: First use the MCP \"codex\" tool to have Codex write an optimal task list, then call this tool to execute it.\n\nEach task should be:\n- Atomic and testable (one clear action per task)\n- Descriptive title (the agent sees this as its primary instruction)\n- Optional description for additional context\n\nUse parallel_group to run independent tasks concurrently (same group number = run together).\nTasks without parallel_group run sequentially.\n\nIn sequential mode, description enriches the agent prompt.\nIn parallel mode, only the title is sent to the agent — put critical info in the title.".to_owned();
        RalphyTool { security, config, description }
    }

    pub fn name(&self) -> (r: &str)
        ensures
            r@ == "ralphy"@,
    {
        "ralphy"
    }

    pub fn description(&self) -> (r: &str)
        ensures
            r@ == self.description@,
    {
        self.description.as_str()
    }

    /// The runner needs a configured, non-empty working directory.
    pub fn validate_working_dir(&self) -> (r: Result<String, ToolResult>)
        ensures
            match r {
                Ok(dir) => self.config.working_dir matches Some(d) && dir@ == d@ && d@.len() > 0,
                Err(result) => {
                    &&& match self.config.working_dir {
                        None => true,
                        Some(d) => d@.len() == 0,
                    }
                    &&& ralphy_denial(result, no_working_dir_msg())
                },
            },
    {
        match &self.config.working_dir {
            Some(d) => {
                if d.as_str().is_empty() {
                    Err(
                        ToolResult::failure(
                            "Ralphy working_dir is not configured. Set [ralphy] working_dir in config.toml.".to_owned(),
                        ),
                    )
                } else {
                    Ok(d.clone())
                }
            },
            None => Err(
                ToolResult::failure(
                    "Ralphy working_dir is not configured. Set [ralphy] working_dir in config.toml.".to_owned(),
                ),
            ),
        }
    }

    /// The tasks must be non-empty, and every task needs a non-blank title;
    /// the first offender is reported by index.
    pub fn validate_tasks(tasks: &Vec<RalphyTask>) -> (r: Option<ToolResult>)
        ensures
            match r {
                None => tasks@.len() > 0 && forall|i: int|
                    0 <= i < tasks@.len() ==> task_title_ok(#[trigger] tasks@[i]),
                Some(result) => {
                    if tasks@.len() == 0 {
                        ralphy_denial(result, empty_tasks_msg())
                    } else {
                        exists|i: int|
                            {
                                &&& 0 <= i < tasks@.len()
                                &&& !task_title_ok(#[trigger] tasks@[i])
                                &&& forall|j: int| 0 <= j < i ==> task_title_ok(tasks@[j])
                                &&& ralphy_denial(result, missing_title_msg(i))
                            }
                    }
                },
            },
    {
        let n = tasks.len();
        if n == 0 {
            return Some(
                ToolResult::failure("Tasks array is empty. Provide at least one task.".to_owned()),
            );
        }
        let mut i: usize = 0;
        while i < n
            invariant
                0 <= i <= n,
                n == tasks@.len(),
                forall|j: int| 0 <= j < i ==> task_title_ok(#[trigger] tasks@[j]),
            decreases n - i,
        {
            let ok = match &tasks[i].title {
                None => false,
                Some(t) => !crate::text::trim(t.as_str()).is_empty(),
            };
            if !ok {
                let mut msg = String::new();
                push_str(&mut msg, "Task at index ");
                let digits = u64_to_string(i as u64);
                push_str(&mut msg, digits.as_str());
                push_str(&mut msg, " is missing a non-empty 'title' field.");
                return Some(ToolResult::failure(msg));
            }
            i = i + 1;
        }
        None
    }

    pub fn spawn_failure_message(&self, err: &str) -> (r: String)
        ensures
            r@ == "Failed to spawn ralphy (command: "@ + self.config.command@ + "): "@ + err@,
    {
        let mut msg = String::new();
        push_str(&mut msg, "Failed to spawn ralphy (command: ");
        push_str(&mut msg, self.config.command.as_str());
        push_str(&mut msg, "): ");
        push_str(&mut msg, err);
        msg
    }

    pub fn process_error_message(err: &str) -> (r: String)
        ensures
            r@ == "Ralphy process error: "@ + err@,
    {
        let mut msg = String::new();
        push_str(&mut msg, "Ralphy process error: ");
        push_str(&mut msg, err);
        msg
    }

    pub fn timeout_message(&self) -> (r: String)
        ensures
            r@ == "Ralphy PRD execution timed out after "@ + dec_spec(
                self.config.timeout_secs as int,
            ) + "s"@,
    {
        let mut msg = String::new();
        push_str(&mut msg, "Ralphy PRD execution timed out after ");
        let secs = u64_to_string(self.config.timeout_secs);
        push_str(&mut msg, secs.as_str());
        push_str(&mut msg, "s");
        msg
    }

    /// Maps the runner's exit to the tool's result: a zero exit status
    /// succeeds with the combined output, any other names the exit code (or
    /// `unknown` when the process ended without one).
    pub fn map_exit(exit_ok: bool, exit_code: Option<i64>, output: String) -> (r: ToolResult)
        ensures
            r.success == exit_ok,
            r.output == output,
            if exit_ok {
                r.error is None
            } else {
                r.error matches Some(e) && e@ == ("Ralphy exited with status: "@ + (
                match exit_code {
                    Some(c) => crate::text::dec_i64_spec(c as int),
                    None => "unknown"@,
                }))
            },
    {
        if exit_ok {
            ToolResult::ok(output)
        } else {
            let mut msg = String::new();
            push_str(&mut msg, "Ralphy exited with status: ");
            match exit_code {
                Some(c) => {
                    let digits = i64_to_string(c);
                    push_str(&mut msg, digits.as_str());
                },
                None => {
                    push_str(&mut msg, "unknown");
                },
            }
            ToolResult { success: false, output, error: Some(msg) }
        }
    }
}

} // verus!
