//! What the workflow runtime reads back from a workflow: the state record of
//! each task, and the workflow's output.
use crate::json::{clone_value, json_from_option, value_from_option};
use serde_json::Value;
use vstd::prelude::*;

verus! {

/// Where a task is in its life cycle.
#[derive(Clone, Copy, Debug, PartialEq, Eq, Structural)]
pub enum ExecutionState {
    Running,
    Aborted,
    Success,
}

impl Default for ExecutionState {
    fn default() -> (state: Self)
        ensures
            state == ExecutionState::Running,
    {
        ExecutionState::Running
    }
}

/// The state record of a task: its name, its place among the tasks, where
/// it is in its life cycle, its output and its error, if any.
#[derive(Debug)]
pub struct StateData {
    pub action_name: String,
    pub task_index: isize,
    pub execution_state: ExecutionState,
    pub output: Option<Value>,
    pub error: Option<String>,
}

impl Default for StateData {
    fn default() -> (data: Self)
        ensures
            data.action_name@ == Seq::<char>::empty(),
            data.task_index == 0,
            data.execution_state == ExecutionState::Running,
            data.output is None,
            data.error is None,
    {
        StateData {
            action_name: String::new(),
            task_index: 0,
            execution_state: ExecutionState::Running,
            output: None,
            error: None,
        }
    }
}

impl StateData {
    /// Whether the task succeeded: its state says so and it has a place among the tasks.
    pub fn is_success(&self) -> (success: bool)
        ensures
            success == (self.execution_state == ExecutionState::Success && self.task_index > -1),
    {
        self.execution_state == ExecutionState::Success && self.task_index > -1
    }

    /// The output of the task, `null` when it has none.
    pub fn get_output(&self) -> (output: Value)
        ensures
            output == json_from_option(self.output),
            self.output matches Some(v) ==> output == v,
    {
        let copy = match &self.output {
            Some(v) => Some(clone_value(v)),
            None => None,
        };
        value_from_option(copy)
    }

    /// The name of the task.
    pub fn get_action_name(&self) -> (name: String)
        ensures
            name@ == self.action_name@,
    {
        self.action_name.clone()
    }
}

/// The output of a workflow.
#[derive(Debug)]
pub struct Output {
    pub result: Value,
}

/// A result rendered as text.
#[derive(Debug)]
pub struct Resultss {
    pub result: String,
}

/// What the runtime hands a workflow: the hosts it may call, and its input.
#[derive(Debug)]
pub struct MainInput {
    pub allowed_hosts: Option<Vec<String>>,
    pub data: Value,
}

} // verus!
