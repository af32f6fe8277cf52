//! The state that a workflow keeps about its progress: the task it is at
//! and the error that stopped it, if any.
use crate::json::{json_parse, json_serialized, parse_json, serialize_json};
use crate::text::{append_decimal, decimal};
use vstd::prelude::*;

verus! {

/// The text that `{:?}` writes for an optional string.
pub uninterp spec fn option_debug(value: Option<Seq<char>>) -> Seq<char>;

/// The view of an optional string.
pub open spec fn option_text(value: Option<String>) -> Option<Seq<char>> {
    match value {
        Some(text) => Some(text@),
        None => None,
    }
}

/// Wraps `format!("{:?}", ..)` of an `Option<String>`: the derived debug
/// text, which is `None` for no value.
#[verifier::external_body]
fn option_debug_text(value: &Option<String>) -> (text: String)
    ensures
        text@ == option_debug(option_text(*value)),
        value is None ==> text@ == "None"@,
{
    format!("{:?}", value)
}

/// The text of the record of a state that the host receives: a JSON object
/// with the task's name, its index and the debug text of the error, each
/// written in as it stands.
pub open spec fn record_text(action_name: Seq<char>, task_index: nat, error: Option<Seq<char>>) -> Seq<char> {
    "{\"action_name\":\""@ + action_name + "\",\"task_index\":"@ + decimal(task_index) + ", \"error\":\""@
        + option_debug(error) + "\"}"@
}

/// The bytes handed to the host for a state whose record text is `text`:
/// the text parsed as JSON and written out again; none when the text does
/// not parse (as with a state that holds an error, whose debug text brings
/// quotes of its own).
pub open spec fn record_bytes(text: Seq<char>) -> Option<Seq<u8>> {
    match json_parse(text) {
        Some(value) => json_serialized(value),
        None => None,
    }
}

/// The name and index of the current task, and the error that stopped the
/// workflow, if any.
#[derive(Default, Debug)]
pub struct StateData {
    pub action_name: String,
    pub task_index: usize,
    pub error: Option<String>,
}

impl StateData {
    /// The state at the start of a workflow, at the task `initial_task`.
    pub fn init(initial_task: &str) -> (state: Self)
        ensures
            state.action_name@ == initial_task@,
            state.task_index == 0,
            state.error is None,
    {
        StateData { action_name: initial_task.to_string(), task_index: 0, error: None }
    }

    /// Moves on to the task `action_name` at `task_index`, clearing any error.
    pub fn update(&mut self, action_name: &str, task_index: usize)
        ensures
            final(self).action_name@ == action_name@,
            final(self).task_index == task_index,
            final(self).error is None,
    {
        self.action_name = action_name.to_string();
        self.task_index = task_index;
        self.error = None;
    }

    /// Records the error that stopped the workflow at the current task.
    pub fn update_err(&mut self, error: &str)
        ensures
            final(self).action_name == old(self).action_name,
            final(self).task_index == old(self).task_index,
            final(self).error matches Some(e) && e@ == error@,
    {
        self.error = Some(error.to_string());
    }

    /// The text of the record of this state that the host receives.
    pub fn record_text(&self) -> (text: String)
        ensures
            text@ == record_text(self.action_name@, self.task_index as nat, option_text(self.error)),
    {
        let mut text = String::from_str("{\"action_name\":\"");
        text.append(self.action_name.as_str());
        text.append("\",\"task_index\":");
        append_decimal(&mut text, self.task_index as u64);
        text.append(", \"error\":\"");
        let error = option_debug_text(&self.error);
        text.append(error.as_str());
        text.append("\"}");
        text
    }

    /// The bytes of the record of this state that the host receives, if its
    /// text parses as JSON.
    pub fn state_record(&self) -> (record: Option<Vec<u8>>)
        ensures
            match record {
                Some(bytes) => record_bytes(record_text(self.action_name@, self.task_index as nat, option_text(self.error)))
                    == Some(bytes@),
                None => record_bytes(record_text(self.action_name@, self.task_index as nat, option_text(self.error)))
                    is None,
            },
    {
        let text = self.record_text();
        match parse_json(text.as_str()) {
            Some(value) => serialize_json(&value),
            None => None,
        }
    }
}

} // verus!
