use pocs::runtime_types::{ExecutionState, StateData};
use pocs::state_manager::StateData as ManagedState;
use serde_json::Value;

fn state(execution_state: ExecutionState, task_index: isize, output: Option<Value>) -> StateData {
    StateData { action_name: "cartype".to_string(), task_index, execution_state, output, error: None }
}

#[test]
fn success_needs_the_state_and_a_task_index() {
    assert!(state(ExecutionState::Success, 0, None).is_success());
    assert!(!state(ExecutionState::Success, -1, None).is_success());
    assert!(!state(ExecutionState::Running, 2, None).is_success());
    assert!(!state(ExecutionState::Aborted, 2, None).is_success());
}

#[test]
fn output_is_null_when_missing() {
    assert_eq!(state(ExecutionState::Running, 0, None).get_output(), Value::Null);
    let out = Value::from(vec![Value::from("tesla")]);
    assert_eq!(state(ExecutionState::Success, 0, Some(out.clone())).get_output(), out);
    assert_eq!(state(ExecutionState::Success, 0, None).get_action_name(), "cartype");
}

#[test]
fn default_state_is_running_at_the_first_task() {
    let s = StateData::default();
    assert_eq!(s.execution_state, ExecutionState::Running);
    assert_eq!(s.task_index, 0);
    assert!(s.output.is_none() && s.error.is_none() && s.action_name.is_empty());
}

#[test]
fn managed_state_moves_from_task_to_task() {
    let mut s = ManagedState::init("cartype");
    assert_eq!(s.action_name, "cartype");
    assert_eq!(s.task_index, 0);
    s.update_err("no such model");
    assert_eq!(s.error.as_deref(), Some("no such model"));
    assert_eq!(s.action_name, "cartype");
    s.update("modelavail", 1);
    assert_eq!(s.action_name, "modelavail");
    assert_eq!(s.task_index, 1);
    assert!(s.error.is_none());
}

#[test]
fn state_record_text_is_written_as_the_host_expects() {
    let mut s = ManagedState::init("cartype");
    assert_eq!(s.record_text(), "{\"action_name\":\"cartype\",\"task_index\":0, \"error\":\"None\"}");
    s.update("modelavail", 12);
    assert_eq!(s.record_text(), "{\"action_name\":\"modelavail\",\"task_index\":12, \"error\":\"None\"}");
}

#[test]
fn state_record_is_the_parsed_record_written_out() {
    let mut s = ManagedState::init("cartype");
    s.update("purchase", 3);
    let bytes = s.state_record().unwrap();
    assert_eq!(bytes, b"{\"action_name\":\"purchase\",\"error\":\"None\",\"task_index\":3}".to_vec());
    let value: Value = serde_json::from_slice(&bytes).unwrap();
    assert_eq!(value["task_index"], Value::from(3));
}

#[test]
fn a_state_with_an_error_has_no_record() {
    let mut s = ManagedState::init("cartype");
    s.update_err("no such model");
    assert_eq!(s.record_text(), "{\"action_name\":\"cartype\",\"task_index\":0, \"error\":\"Some(\"no such model\")\"}");
    assert!(s.state_record().is_none());
}
